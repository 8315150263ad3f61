//! The field rules that a create or update request must meet, checked in a
//! fixed order and reported by their first violation.

use crate::books::{trim, trimmed, BookRequest};
use crate::i18n::{message, message_text, MessageKey};
use vstd::prelude::*;

verus! {

/// A rule that a request breaks: its key and the localized text of it.
pub struct Violation {
    pub key: MessageKey,
    pub message: String,
}

/// A text that is empty once trimmed.
pub open spec fn blank(s: Seq<char>) -> bool {
    trimmed(s).len() == 0
}

pub open spec fn rate_ok(rate: i16) -> bool {
    0 <= rate <= 10
}

pub open spec fn status_ok(status: i16) -> bool {
    0 <= status <= 5
}

pub open spec fn kind_ok(kind: Option<i16>) -> bool {
    match kind {
        Some(v) => 0 <= v <= 4,
        None => true,
    }
}

/// The first rule that `br` breaks, in the order title, publisher, language,
/// rating, status, kind; none where it breaks none.
pub open spec fn first_violation(br: BookRequest) -> Option<MessageKey> {
    if blank(br.title@) {
        Some(MessageKey::EmptyTitle)
    } else if blank(br.publisher@) {
        Some(MessageKey::EmptyPublisher)
    } else if blank(br.language@) {
        Some(MessageKey::EmptyLanguage)
    } else if !rate_ok(br.rate) {
        Some(MessageKey::BadRating)
    } else if !status_ok(br.status) {
        Some(MessageKey::BadStatus)
    } else if !kind_ok(br.kind) {
        Some(MessageKey::BadKind)
    } else {
        None
    }
}

fn is_blank(s: &String) -> (r: bool)
    ensures
        r == blank(s@),
{
    trim(s.as_str()).unicode_len() == 0
}

/// Checks a create or update request; the error names the first rule broken,
/// with its text in language `lang`.
pub fn validate_request(br: &BookRequest, lang: &str) -> (r: Result<(), Violation>)
    ensures
        match first_violation(*br) {
            None => r is Ok,
            Some(k) => r is Err && r->Err_0.key == k && r->Err_0.message@ == message_text(k, lang@),
        },
{
    let key = if is_blank(&br.title) {
        MessageKey::EmptyTitle
    } else if is_blank(&br.publisher) {
        MessageKey::EmptyPublisher
    } else if is_blank(&br.language) {
        MessageKey::EmptyLanguage
    } else if br.rate < 0 || br.rate > 10 {
        MessageKey::BadRating
    } else if br.status < 0 || br.status > 5 {
        MessageKey::BadStatus
    } else {
        match br.kind {
            Some(v) => {
                if 0 <= v && v <= 4 {
                    return Ok(());
                }
                MessageKey::BadKind
            },
            None => {
                return Ok(());
            },
        }
    };
    Err(Violation { key, message: message(key, lang) })
}

/// With every other field valid, a rating outside `[0, 10]` is reported as a
/// bad rating, and a rating inside it makes the request valid.
pub proof fn lemma_rating_rule(br: BookRequest)
    requires
        !blank(br.title@),
        !blank(br.publisher@),
        !blank(br.language@),
        status_ok(br.status),
        kind_ok(br.kind),
    ensures
        !rate_ok(br.rate) ==> first_violation(br) == Some(MessageKey::BadRating),
        rate_ok(br.rate) ==> first_violation(br) is None,
{
}

} // verus!
