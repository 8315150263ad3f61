//! The message catalog: fixed texts for each message key in each supported
//! language, and the choice of language from a raw `Accept-Language` value.

use vstd::prelude::*;

verus! {

/// The language used where a request names none that is supported.
pub const DEFAULT_LANGUAGE: &'static str = "en";

/// Each condition that the service reports to its clients.
#[derive(Clone, Copy, Debug, PartialEq, Eq, Structural)]
pub enum MessageKey {
    EmptyTitle,
    EmptyPublisher,
    EmptyLanguage,
    BadRating,
    BadStatus,
    BadKind,
    NotFound,
    Oops,
    Unknown,
}

impl MessageKey {
    /// The key's symbolic name.
    pub open spec fn spec_name(self) -> Seq<char> {
        match self {
            MessageKey::EmptyTitle => "emptytitle"@,
            MessageKey::EmptyPublisher => "emptypublisher"@,
            MessageKey::EmptyLanguage => "emptylanguage"@,
            MessageKey::BadRating => "badrating"@,
            MessageKey::BadStatus => "badstatus"@,
            MessageKey::BadKind => "badkind"@,
            MessageKey::NotFound => "notfound"@,
            MessageKey::Oops => "oops"@,
            MessageKey::Unknown => "unknown"@,
        }
    }

    pub fn name(&self) -> (r: &'static str)
        ensures
            r@ == self.spec_name(),
    {
        match self {
            MessageKey::EmptyTitle => "emptytitle",
            MessageKey::EmptyPublisher => "emptypublisher",
            MessageKey::EmptyLanguage => "emptylanguage",
            MessageKey::BadRating => "badrating",
            MessageKey::BadStatus => "badstatus",
            MessageKey::BadKind => "badkind",
            MessageKey::NotFound => "notfound",
            MessageKey::Oops => "oops",
            MessageKey::Unknown => "unknown",
        }
    }
}

/// The key with the given symbolic name, if any.
pub open spec fn key_named(s: Seq<char>) -> Option<MessageKey> {
    if s == "emptytitle"@ {
        Some(MessageKey::EmptyTitle)
    } else if s == "emptypublisher"@ {
        Some(MessageKey::EmptyPublisher)
    } else if s == "emptylanguage"@ {
        Some(MessageKey::EmptyLanguage)
    } else if s == "badrating"@ {
        Some(MessageKey::BadRating)
    } else if s == "badstatus"@ {
        Some(MessageKey::BadStatus)
    } else if s == "badkind"@ {
        Some(MessageKey::BadKind)
    } else if s == "notfound"@ {
        Some(MessageKey::NotFound)
    } else if s == "oops"@ {
        Some(MessageKey::Oops)
    } else if s == "unknown"@ {
        Some(MessageKey::Unknown)
    } else {
        None
    }
}

pub open spec fn catalan_text(k: MessageKey) -> Seq<char> {
    match k {
        MessageKey::EmptyTitle => "no has especificat un títol"@,
        MessageKey::EmptyPublisher => "no has especificat una editorial"@,
        MessageKey::EmptyLanguage => "no has especificat un idioma"@,
        MessageKey::BadRating => "s'ha d'especificar una qualificació entre 0 i 10"@,
        MessageKey::BadStatus => "l'estat conté un valor estrany"@,
        MessageKey::BadKind => "tipus desconegut"@,
        MessageKey::NotFound => "no trobat"@,
        MessageKey::Oops => "ups"@,
        MessageKey::Unknown => "error desconegut"@,
    }
}

pub open spec fn english_text(k: MessageKey) -> Seq<char> {
    match k {
        MessageKey::EmptyTitle => "title not specified"@,
        MessageKey::EmptyPublisher => "publisher not specified"@,
        MessageKey::EmptyLanguage => "language not specified"@,
        MessageKey::BadRating => "rate not between 0 and 10"@,
        MessageKey::BadStatus => "status contains a bad value"@,
        MessageKey::BadKind => "unknown kind given"@,
        MessageKey::NotFound => "not found"@,
        MessageKey::Oops => "oops"@,
        MessageKey::Unknown => "unknown error"@,
    }
}

/// The text of a key in a language; empty for an unsupported language.
pub open spec fn message_text(k: MessageKey, lang: Seq<char>) -> Seq<char> {
    if lang == "ca"@ {
        catalan_text(k)
    } else if lang == "en"@ {
        english_text(k)
    } else {
        Seq::empty()
    }
}

/// The text for a key name in a language; empty where either is unknown.
pub open spec fn translation(lang: Seq<char>, key: Seq<char>) -> Seq<char> {
    match key_named(key) {
        Some(k) => message_text(k, lang),
        None => Seq::empty(),
    }
}

pub open spec fn supported(lang: Seq<char>) -> bool {
    lang == "ca"@ || lang == "en"@
}

/// The language to answer in, for a raw `Accept-Language` value.
pub open spec fn negotiated(header: Seq<char>) -> Seq<char> {
    if supported(header) {
        header
    } else {
        DEFAULT_LANGUAGE@
    }
}

/// Whether two texts are the same.
pub fn same_text(a: &str, b: &str) -> (r: bool)
    ensures
        r == (a@ == b@),
{
    let n = a.unicode_len();
    if n != b.unicode_len() {
        return false;
    }
    let mut i: usize = 0;
    while i < n
        invariant
            n == a@.len(),
            n == b@.len(),
            i <= n,
            forall|j: int| 0 <= j < i ==> a@[j] == b@[j],
        decreases n - i,
    {
        if a.get_char(i) != b.get_char(i) {
            return false;
        }
        i = i + 1;
    }
    assert(a@ =~= b@);
    true
}

fn catalan(k: MessageKey) -> (r: &'static str)
    ensures
        r@ == catalan_text(k),
{
    match k {
        MessageKey::EmptyTitle => "no has especificat un títol",
        MessageKey::EmptyPublisher => "no has especificat una editorial",
        MessageKey::EmptyLanguage => "no has especificat un idioma",
        MessageKey::BadRating => "s'ha d'especificar una qualificació entre 0 i 10",
        MessageKey::BadStatus => "l'estat conté un valor estrany",
        MessageKey::BadKind => "tipus desconegut",
        MessageKey::NotFound => "no trobat",
        MessageKey::Oops => "ups",
        MessageKey::Unknown => "error desconegut",
    }
}

fn english(k: MessageKey) -> (r: &'static str)
    ensures
        r@ == english_text(k),
{
    match k {
        MessageKey::EmptyTitle => "title not specified",
        MessageKey::EmptyPublisher => "publisher not specified",
        MessageKey::EmptyLanguage => "language not specified",
        MessageKey::BadRating => "rate not between 0 and 10",
        MessageKey::BadStatus => "status contains a bad value",
        MessageKey::BadKind => "unknown kind given",
        MessageKey::NotFound => "not found",
        MessageKey::Oops => "oops",
        MessageKey::Unknown => "unknown error",
    }
}

/// The text of a key in the language `lang`.
pub fn message(k: MessageKey, lang: &str) -> (r: String)
    ensures
        r@ == message_text(k, lang@),
{
    if same_text(lang, "ca") {
        catalan(k).to_owned()
    } else if same_text(lang, "en") {
        english(k).to_owned()
    } else {
        String::new()
    }
}

/// The key named `s`, if there is one.
pub fn lookup_key(s: &str) -> (r: Option<MessageKey>)
    ensures
        r == key_named(s@),
{
    if same_text(s, "emptytitle") {
        Some(MessageKey::EmptyTitle)
    } else if same_text(s, "emptypublisher") {
        Some(MessageKey::EmptyPublisher)
    } else if same_text(s, "emptylanguage") {
        Some(MessageKey::EmptyLanguage)
    } else if same_text(s, "badrating") {
        Some(MessageKey::BadRating)
    } else if same_text(s, "badstatus") {
        Some(MessageKey::BadStatus)
    } else if same_text(s, "badkind") {
        Some(MessageKey::BadKind)
    } else if same_text(s, "notfound") {
        Some(MessageKey::NotFound)
    } else if same_text(s, "oops") {
        Some(MessageKey::Oops)
    } else if same_text(s, "unknown") {
        Some(MessageKey::Unknown)
    } else {
        None
    }
}

/// The translation of the key named `key` into the language `lang`; empty
/// where the key or its translation is missing.
pub fn t(lang: &str, key: &str) -> (r: String)
    ensures
        r@ == translation(lang@, key@),
{
    match lookup_key(key) {
        Some(k) => message(k, lang),
        None => String::new(),
    }
}

/// The language to answer in: the raw header value where it is supported,
/// the default language otherwise.
pub fn negotiate(header: &str) -> (r: String)
    ensures
        r@ == negotiated(header@),
{
    if same_text(header, "ca") || same_text(header, "en") {
        header.to_owned()
    } else {
        DEFAULT_LANGUAGE.to_owned()
    }
}

/// An unsupported language resolves, after negotiation, as the default one.
pub proof fn lemma_unsupported_falls_back(header: Seq<char>, key: Seq<char>)
    requires
        !supported(header),
    ensures
        translation(negotiated(header), key) == translation(DEFAULT_LANGUAGE@, key),
{
}

/// Each key has a text in each supported language, and the two differ.
pub proof fn lemma_languages_differ(k: MessageKey)
    ensures
        message_text(k, "ca"@).len() > 0,
        message_text(k, "en"@).len() > 0,
        message_text(k, "ca"@) != message_text(k, "en"@),
{
    reveal_strlit("ca");
    reveal_strlit("en");
    assert("en"@[0] != "ca"@[0]);
    assert(message_text(k, "ca"@) == catalan_text(k));
    assert(message_text(k, "en"@) == english_text(k));
    match k {
        MessageKey::EmptyTitle => {
            reveal_strlit("no has especificat un títol");
            reveal_strlit("title not specified");
            assert(catalan_text(k)[2] != english_text(k)[2]);
        },
        MessageKey::EmptyPublisher => {
            reveal_strlit("no has especificat una editorial");
            reveal_strlit("publisher not specified");
            assert(catalan_text(k)[2] != english_text(k)[2]);
        },
        MessageKey::EmptyLanguage => {
            reveal_strlit("no has especificat un idioma");
            reveal_strlit("language not specified");
            assert(catalan_text(k)[2] != english_text(k)[2]);
        },
        MessageKey::BadRating => {
            reveal_strlit("s'ha d'especificar una qualificació entre 0 i 10");
            reveal_strlit("rate not between 0 and 10");
            assert(catalan_text(k)[2] != english_text(k)[2]);
        },
        MessageKey::BadStatus => {
            reveal_strlit("l'estat conté un valor estrany");
            reveal_strlit("status contains a bad value");
            assert(catalan_text(k)[2] != english_text(k)[2]);
        },
        MessageKey::BadKind => {
            reveal_strlit("tipus desconegut");
            reveal_strlit("unknown kind given");
            assert(catalan_text(k)[2] != english_text(k)[2]);
        },
        MessageKey::NotFound => {
            reveal_strlit("no trobat");
            reveal_strlit("not found");
            assert(catalan_text(k)[2] != english_text(k)[2]);
        },
        MessageKey::Oops => {
            reveal_strlit("ups");
            reveal_strlit("oops");
            assert(catalan_text(k)[2] != english_text(k)[2]);
        },
        MessageKey::Unknown => {
            reveal_strlit("error desconegut");
            reveal_strlit("unknown error");
            assert(catalan_text(k)[2] != english_text(k)[2]);
        },
    }
}

} // verus!
