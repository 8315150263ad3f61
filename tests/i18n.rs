use llibres::i18n::{lookup_key, message, negotiate, same_text, t, MessageKey};

#[test]
fn catalog_texts() {
    assert_eq!(t("en", "emptytitle"), "title not specified");
    assert_eq!(t("ca", "emptytitle"), "no has especificat un títol");
    assert_eq!(t("en", "emptypublisher"), "publisher not specified");
    assert_eq!(t("en", "emptylanguage"), "language not specified");
    assert_eq!(t("en", "badstatus"), "status contains a bad value");
    assert_eq!(t("ca", "badkind"), "tipus desconegut");
    assert_eq!(t("en", "notfound"), "not found");
    assert_eq!(t("ca", "oops"), "ups");
    assert_eq!(t("en", "unknown"), "unknown error");
}

#[test]
fn bad_rating_differs_by_language() {
    let ca = t("ca", "badrating");
    let en = t("en", "badrating");
    assert!(!ca.is_empty() && !en.is_empty());
    assert_ne!(ca, en);
    assert_eq!(en, "rate not between 0 and 10");
    assert_eq!(ca, "s'ha d'especificar una qualificació entre 0 i 10");
}

#[test]
fn unsupported_language_negotiates_to_default() {
    assert_eq!(negotiate("xx"), "en");
    assert_eq!(t(&negotiate("xx"), "badrating"), t("en", "badrating"));
    assert_eq!(negotiate("ca"), "ca");
    assert_eq!(negotiate("en"), "en");
    assert_eq!(negotiate("ca-ES"), "en");
    assert_eq!(negotiate("en;q=0.9"), "en");
    assert_eq!(negotiate(""), "en");
}

#[test]
fn missing_translation_is_empty() {
    assert_eq!(t("xx", "badrating"), "");
    assert_eq!(t("en", "nosuchkey"), "");
    assert_eq!(t("ca", ""), "");
}

#[test]
fn keys_round_trip_through_names() {
    for k in [
        MessageKey::EmptyTitle,
        MessageKey::EmptyPublisher,
        MessageKey::EmptyLanguage,
        MessageKey::BadRating,
        MessageKey::BadStatus,
        MessageKey::BadKind,
        MessageKey::NotFound,
        MessageKey::Oops,
        MessageKey::Unknown,
    ] {
        assert_eq!(lookup_key(k.name()), Some(k));
        assert_eq!(t("en", k.name()), message(k, "en"));
        assert_ne!(message(k, "ca"), message(k, "en"));
    }
    assert_eq!(lookup_key("BADRATING"), None);
}

#[test]
fn same_text_compares_characters() {
    assert!(same_text("títol", "títol"));
    assert!(!same_text("ca", "cat"));
    assert!(!same_text("ca", "en"));
    assert!(same_text("", ""));
}
