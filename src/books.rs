//! Book records, the requests that create or overwrite them, and the
//! decisions of their lifecycle that do not touch the store.

use crate::datetime::{now, Timestamp};
use crate::i18n::{message, message_text, MessageKey};
use vstd::prelude::*;

verus! {

/// A book as it is stored.
///
/// `kind` is a small integer whose meaning the client decides.
pub struct Book {
    pub id: u128,
    pub title: String,
    pub supertitle: Option<String>,
    pub rate: i16,
    pub status: i16,
    pub location: Option<String>,
    pub author: String,
    pub publisher: String,
    pub language: String,
    pub notes: Option<String>,
    pub kind: Option<i16>,
    pub created_at: Timestamp,
    pub bought_at: Option<Timestamp>,
    pub updated_at: Option<Timestamp>,
}

/// The fields that a client sends to create or overwrite a book.
pub struct BookRequest {
    pub title: String,
    pub supertitle: Option<String>,
    pub rate: i16,
    pub status: i16,
    pub location: Option<String>,
    pub author: String,
    pub publisher: String,
    pub language: String,
    pub notes: Option<String>,
    pub kind: Option<i16>,
    pub bought_at: Option<Timestamp>,
    /// Never taken from the client: set when an update is prepared.
    pub updated_at: Option<Timestamp>,
}

/// Whether a character is white space in Unicode's sense (property White_Space).
pub open spec fn is_white(c: char) -> bool {
    let u = c as u32;
    (0x9 <= u <= 0xd) || u == 0x20 || u == 0x85 || u == 0xa0 || u == 0x1680 || (0x2000 <= u
        <= 0x200a) || u == 0x2028 || u == 0x2029 || u == 0x202f || u == 0x205f || u == 0x3000
}

pub open spec fn trim_start(s: Seq<char>) -> Seq<char>
    decreases s.len(),
{
    if s.len() > 0 && is_white(s[0]) {
        trim_start(s.drop_first())
    } else {
        s
    }
}

pub open spec fn trim_end(s: Seq<char>) -> Seq<char>
    decreases s.len(),
{
    if s.len() > 0 && is_white(s.last()) {
        trim_end(s.drop_last())
    } else {
        s
    }
}

/// A text without its leading and trailing white space.
pub open spec fn trimmed(s: Seq<char>) -> Seq<char> {
    trim_end(trim_start(s))
}

/// Relies on `str::trim`: the text with leading and trailing white space removed.
#[verifier::external_body]
pub(crate) fn trim(s: &str) -> (r: &str)
    ensures
        r@ == trimmed(s@),
{
    s.trim()
}

/// Relies on uuid's `Uuid::new_v4` and `Uuid::as_u128`: a random identity.
#[verifier::external_body]
fn new_identity() -> (r: u128) {
    uuid::Uuid::new_v4().as_u128()
}

/// A copy of an optional text.
fn copy_text(s: &Option<String>) -> (r: Option<String>)
    ensures
        r == *s,
{
    match s {
        Some(v) => Some(v.clone()),
        None => None,
    }
}

impl BookRequest {
    /// The request as a new record with identity `id`, created at `at`.
    pub open spec fn as_record(self, id: u128, at: Timestamp) -> Book {
        Book {
            id,
            title: self.title,
            supertitle: self.supertitle,
            rate: self.rate,
            status: self.status,
            location: self.location,
            author: self.author,
            publisher: self.publisher,
            language: self.language,
            notes: self.notes,
            kind: self.kind,
            created_at: at,
            bought_at: self.bought_at,
            updated_at: Some(at),
        }
    }

    /// Prepares an overwrite at time `at`: trims the title and sets the
    /// update time; every other field stays as received.
    pub fn prepare_update(&mut self, at: Timestamp)
        ensures
            final(self).title@ == trimmed(old(self).title@),
            final(self).updated_at == Some(at),
            final(self).supertitle == old(self).supertitle,
            final(self).rate == old(self).rate,
            final(self).status == old(self).status,
            final(self).location == old(self).location,
            final(self).author == old(self).author,
            final(self).publisher == old(self).publisher,
            final(self).language == old(self).language,
            final(self).notes == old(self).notes,
            final(self).kind == old(self).kind,
            final(self).bought_at == old(self).bought_at,
    {
        let title = trim(self.title.as_str()).to_owned();
        self.title = title;
        self.updated_at = Some(at);
    }

    /// Prepares an overwrite now: trims the title and sets the update time
    /// to the current time; every other field stays as received.
    pub fn touch(&mut self)
        ensures
            final(self).title@ == trimmed(old(self).title@),
            final(self).updated_at is Some,
            final(self).updated_at->0.wf(),
            final(self).supertitle == old(self).supertitle,
            final(self).rate == old(self).rate,
            final(self).status == old(self).status,
            final(self).location == old(self).location,
            final(self).author == old(self).author,
            final(self).publisher == old(self).publisher,
            final(self).language == old(self).language,
            final(self).notes == old(self).notes,
            final(self).kind == old(self).kind,
            final(self).bought_at == old(self).bought_at,
    {
        let at = now();
        self.prepare_update(at);
    }
}

impl Book {
    /// The fields of `self` that come from `req`, as `req` holds them but the
    /// title, which is stored trimmed.
    pub open spec fn built_from(self, req: BookRequest) -> bool {
        &&& self.title@ == trimmed(req.title@)
        &&& self.supertitle == req.supertitle
        &&& self.rate == req.rate
        &&& self.status == req.status
        &&& self.location == req.location
        &&& self.author == req.author
        &&& self.publisher == req.publisher
        &&& self.language == req.language
        &&& self.notes == req.notes
        &&& self.kind == req.kind
        &&& self.bought_at == req.bought_at
    }

    /// A new record from a request, with identity `id`, created and last
    /// updated at `at`.
    pub fn assemble(req: &BookRequest, id: u128, at: Timestamp) -> (r: Book)
        ensures
            r.built_from(*req),
            r.id == id,
            r.created_at == at,
            r.updated_at == Some(at),
    {
        Book {
            id,
            title: trim(req.title.as_str()).to_owned(),
            supertitle: copy_text(&req.supertitle),
            rate: req.rate,
            status: req.status,
            location: copy_text(&req.location),
            author: req.author.clone(),
            publisher: req.publisher.clone(),
            language: req.language.clone(),
            notes: copy_text(&req.notes),
            kind: req.kind,
            created_at: at,
            bought_at: req.bought_at,
            updated_at: Some(at),
        }
    }

    /// A new record from a request, with a fresh random identity, created and
    /// last updated now.
    pub fn from_request(req: &BookRequest) -> (r: Book)
        ensures
            r.built_from(*req),
            r.created_at.wf(),
            r.updated_at == Some(r.created_at),
    {
        let id = new_identity();
        let at = now();
        Book::assemble(req, id, at)
    }
}

/// How a failed request is reported to the client.
#[derive(Clone, Copy, Debug, PartialEq, Eq, Structural)]
pub enum ErrorKind {
    BadRequest,
    NotFound,
}

/// An error for the client: its kind and a localized message.
pub struct ApiError {
    pub kind: ErrorKind,
    pub message: String,
}

/// A statement that the store could not carry out.
#[derive(Clone, Copy, Debug, PartialEq, Eq, Structural)]
pub struct StorageFailure;

/// What a delete that affected `res` rows means: exactly one row is success,
/// none or several is a missing record, a store failure is a bad request.
pub open spec fn delete_verdict(res: Result<usize, StorageFailure>) -> Result<(), (ErrorKind, MessageKey)> {
    match res {
        Ok(n) => if n == 1 {
            Ok(())
        } else {
            Err((ErrorKind::NotFound, MessageKey::NotFound))
        },
        Err(_) => Err((ErrorKind::BadRequest, MessageKey::Oops)),
    }
}

/// The answer to a delete whose statement affected `res` rows, in language `lang`.
pub fn delete_response(res: Result<usize, StorageFailure>, lang: &str) -> (r: Result<(), ApiError>)
    ensures
        match delete_verdict(res) {
            Ok(()) => r is Ok,
            Err((kind, key)) => r is Err && r->Err_0.kind == kind && r->Err_0.message@
                == message_text(key, lang@),
        },
{
    match res {
        Ok(n) => {
            if n == 1 {
                Ok(())
            } else {
                Err(ApiError { kind: ErrorKind::NotFound, message: message(MessageKey::NotFound, lang) })
            }
        },
        Err(_) => Err(ApiError { kind: ErrorKind::BadRequest, message: message(MessageKey::Oops, lang) }),
    }
}

/// The answer to a create or an update that the store refused, in language `lang`.
pub fn storage_failure_response(lang: &str) -> (r: ApiError)
    ensures
        r.kind == ErrorKind::BadRequest,
        r.message@ == message_text(MessageKey::Unknown, lang@),
{
    ApiError { kind: ErrorKind::BadRequest, message: message(MessageKey::Unknown, lang) }
}

/// The rows that deleting `id` removes from a table keyed by identity.
pub open spec fn rows_deleted(table: Map<u128, Book>, id: u128) -> nat {
    if table.contains_key(id) {
        1
    } else {
        0
    }
}

/// The table once `id` is deleted.
pub open spec fn after_delete(table: Map<u128, Book>, id: u128) -> Map<u128, Book> {
    table.remove(id)
}

/// Deleting an identity that is absent reports a missing record; deleting
/// one that is present succeeds once, and a second delete of it reports a
/// missing record.
pub proof fn lemma_delete_twice(table: Map<u128, Book>, id: u128)
    ensures
        !table.contains_key(id) ==> delete_verdict(Ok(rows_deleted(table, id) as usize))
            == Err::<(), (ErrorKind, MessageKey)>((ErrorKind::NotFound, MessageKey::NotFound)),
        table.contains_key(id) ==> delete_verdict(Ok(rows_deleted(table, id) as usize)) == Ok::<
            (),
            (ErrorKind, MessageKey),
        >(()),
        delete_verdict(Ok(rows_deleted(after_delete(table, id), id) as usize)) == Err::<
            (),
            (ErrorKind, MessageKey),
        >((ErrorKind::NotFound, MessageKey::NotFound)),
{
}

impl Book {
    /// The record once overwritten by a prepared request: identity and
    /// creation time are kept, every other field comes from the request.
    pub open spec fn overwritten(self, req: BookRequest) -> Book {
        Book {
            id: self.id,
            title: req.title,
            supertitle: req.supertitle,
            rate: req.rate,
            status: req.status,
            location: req.location,
            author: req.author,
            publisher: req.publisher,
            language: req.language,
            notes: req.notes,
            kind: req.kind,
            created_at: self.created_at,
            bought_at: req.bought_at,
            updated_at: req.updated_at,
        }
    }
}

/// An update prepared at a time later than the record's last update
/// advances the record's update time strictly.
pub proof fn lemma_update_advances(rec: Book, req: BookRequest, at: Timestamp)
    requires
        req.updated_at == Some(at),
        rec.updated_at is Some ==> rec.updated_at->0.before(at),
    ensures
        rec.overwritten(req).updated_at == Some(at),
        rec.updated_at is Some ==> rec.updated_at->0.before(rec.overwritten(req).updated_at->0),
        rec.overwritten(req).id == rec.id,
        rec.overwritten(req).created_at == rec.created_at,
{
}

} // verus!
