use llibres::books::BookRequest;
use llibres::i18n::MessageKey;
use llibres::validate::validate_request;

fn request() -> BookRequest {
    BookRequest {
        title: String::from("Dune"),
        supertitle: None,
        rate: 8,
        status: 2,
        location: Some(String::from("shelf")),
        author: String::from("Frank Herbert"),
        publisher: String::from("Chilton"),
        language: String::from("en"),
        notes: None,
        kind: Some(1),
        bought_at: None,
        updated_at: None,
    }
}

fn key_of(br: &BookRequest) -> Option<MessageKey> {
    validate_request(br, "en").err().map(|v| v.key)
}

#[test]
fn valid_request_passes() {
    assert!(validate_request(&request(), "en").is_ok());
    let mut br = request();
    br.kind = None;
    assert!(validate_request(&br, "ca").is_ok());
}

#[test]
fn blank_title_is_reported_first() {
    let mut br = request();
    br.title = String::from("  \t ");
    br.rate = 99;
    let v = validate_request(&br, "ca").unwrap_err();
    assert_eq!(v.key, MessageKey::EmptyTitle);
    assert_eq!(v.message, "no has especificat un títol");
}

#[test]
fn each_rule_has_its_key() {
    let mut br = request();
    br.publisher = String::new();
    assert_eq!(key_of(&br), Some(MessageKey::EmptyPublisher));

    let mut br = request();
    br.language = String::from("\u{3000}");
    assert_eq!(key_of(&br), Some(MessageKey::EmptyLanguage));

    let mut br = request();
    br.status = 6;
    assert_eq!(key_of(&br), Some(MessageKey::BadStatus));
    br.status = -1;
    assert_eq!(key_of(&br), Some(MessageKey::BadStatus));

    let mut br = request();
    br.kind = Some(5);
    assert_eq!(key_of(&br), Some(MessageKey::BadKind));
    br.kind = Some(-1);
    let v = validate_request(&br, "en").unwrap_err();
    assert_eq!(v.message, "unknown kind given");
}

#[test]
fn rating_outside_range_is_bad_rating() {
    for rate in [i16::MIN, -100, -1, 11, 12, 100, i16::MAX] {
        let mut br = request();
        br.rate = rate;
        let v = validate_request(&br, "en").unwrap_err();
        assert_eq!(v.key, MessageKey::BadRating);
        assert_eq!(v.message, "rate not between 0 and 10");
    }
    for rate in 0..=10 {
        let mut br = request();
        br.rate = rate;
        assert!(validate_request(&br, "en").is_ok());
    }
}

#[test]
fn bounds_of_status_and_kind_are_inclusive() {
    let mut br = request();
    br.status = 0;
    br.kind = Some(0);
    assert!(validate_request(&br, "en").is_ok());
    br.status = 5;
    br.kind = Some(4);
    assert!(validate_request(&br, "en").is_ok());
}

#[test]
fn unsupported_language_gives_empty_message() {
    let mut br = request();
    br.rate = 11;
    let v = validate_request(&br, "xx").unwrap_err();
    assert_eq!(v.key, MessageKey::BadRating);
    assert_eq!(v.message, "");
}
