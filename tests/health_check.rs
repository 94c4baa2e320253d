use zero2prod::form::{decode_form, find_field};
use zero2prod::http::{health_check, Response, STATUS_BAD_REQUEST, STATUS_INTERNAL_SERVER_ERROR, STATUS_OK};
use zero2prod::subscriptions::{insert_reply, parse_subscription, subscribe, MemoryStore, SubscribeStep};

fn pairs(items: &[(&str, &str)]) -> Vec<(String, String)> {
    items.iter().map(|(k, v)| (k.to_string(), v.to_string())).collect()
}

#[test]
fn health_check_works() {
    let response = health_check();
    assert!(response.is_success());
    assert_eq!(Some(0), Some(response.content_length()));
}

#[test]
fn health_check_is_200_with_empty_body() {
    let response = health_check();
    assert_eq!(response.status, 200);
    assert!(response.body.is_empty());
}

#[test]
fn subscribe_returns_a_200_for_valid_form_data() {
    let mut store = MemoryStore::new();
    let body = "name=le%20Guin&email=ursula_le_guin%40gmail.com";
    let response = store.handle_subscription(body.as_bytes());
    assert_eq!(200, response.status);

    assert_eq!(store.len(), 1);
    let saved = store.get(0);
    assert_eq!(saved.email, "ursula_le_guin@gmail.com");
    assert_eq!(saved.name, "le Guin");
}

#[test]
fn subscribe_returns_a_400_when_data_is_missing() {
    let test_cases = vec![
        ("name=le%20guin", "missing the email"),
        ("email=ursula_le_guin%40gmail.com", "missing the name"),
        ("", "missing both name and email"),
    ];
    for (invalid_body, error_message) in test_cases {
        let mut store = MemoryStore::new();
        let response = store.handle_subscription(invalid_body.as_bytes());
        assert_eq!(
            400,
            response.status,
            "The API did not fail with 400 Bad Request when the payload was {}.",
            error_message
        );
        assert_eq!(store.len(), 0);
    }
}

#[test]
fn same_body_twice_stores_two_records() {
    let mut store = MemoryStore::new();
    let body = b"name=le%20Guin&email=ursula_le_guin%40gmail.com";
    assert_eq!(store.handle_subscription(body).status, 200);
    assert_eq!(store.handle_subscription(body).status, 200);
    assert_eq!(store.len(), 2);
    assert_eq!(store.get(0).name, store.get(1).name);
    assert_eq!(store.get(0).email, store.get(1).email);
}

#[test]
fn empty_field_values_are_rejected() {
    for body in ["name=&email=a%40b.c", "name=x&email=", "name=x&email"] {
        let mut store = MemoryStore::new();
        assert_eq!(store.handle_subscription(body.as_bytes()).status, 400);
        assert_eq!(store.len(), 0);
    }
}

#[test]
fn repeated_field_is_rejected() {
    let mut store = MemoryStore::new();
    let response = store.handle_subscription(b"name=a&name=b&email=c%40d");
    assert_eq!(response.status, STATUS_BAD_REQUEST);
    assert_eq!(store.len(), 0);
}

#[test]
fn extra_fields_and_order_are_ignored() {
    let mut store = MemoryStore::new();
    let response = store.handle_subscription(b"email=x%40y.z&extra=1&name=Ann+Lee");
    assert_eq!(response.status, STATUS_OK);
    assert_eq!(store.get(0).name, "Ann Lee");
    assert_eq!(store.get(0).email, "x@y.z");
}

#[test]
fn email_format_is_not_checked() {
    let mut store = MemoryStore::new();
    assert_eq!(store.handle_subscription(b"name=a&email=not-an-email").status, 200);
    assert_eq!(store.get(0).email, "not-an-email");
}

#[test]
fn decode_form_decodes_escapes_and_plus() {
    let decoded = decode_form(b"a%20b=c+d&&e=&f");
    assert_eq!(decoded, pairs(&[("a b", "c d"), ("e", ""), ("f", "")]));
    assert!(decode_form(b"").is_empty());
}

#[test]
fn find_field_reports_single_occurrence_only() {
    let p = pairs(&[("name", "a"), ("email", "b"), ("email", "c")]);
    assert_eq!(find_field(&p, &"name".to_string()), Some(0));
    assert_eq!(find_field(&p, &"email".to_string()), None);
    assert_eq!(find_field(&p, &"other".to_string()), None);
}

#[test]
fn parse_subscription_reads_both_fields() {
    let s = parse_subscription(&pairs(&[("email", "e@x"), ("name", "N")])).unwrap();
    assert_eq!(s.name, "N");
    assert_eq!(s.email, "e@x");
    assert!(parse_subscription(&pairs(&[("name", "N")])).is_none());
    assert!(parse_subscription(&pairs(&[])).is_none());
}

#[test]
fn subscribe_steps() {
    match subscribe(b"name=le%20Guin&email=ursula_le_guin%40gmail.com") {
        SubscribeStep::Insert(s) => {
            assert_eq!(s.name, "le Guin");
            assert_eq!(s.email, "ursula_le_guin@gmail.com");
        }
        SubscribeStep::Respond(_) => panic!("expected an insert"),
    }
    match subscribe(b"") {
        SubscribeStep::Respond(r) => {
            assert_eq!(r.status, 400);
            assert_eq!(r.content_length(), 0);
        }
        SubscribeStep::Insert(_) => panic!("expected a 400"),
    }
}

#[test]
fn insert_reply_maps_store_outcome() {
    let ok = insert_reply(true);
    assert_eq!(ok.status, STATUS_OK);
    assert_eq!(ok.content_length(), 0);
    let failed = insert_reply(false);
    assert_eq!(failed.status, STATUS_INTERNAL_SERVER_ERROR);
    assert!(!failed.is_success());
    assert_eq!(failed.content_length(), 0);
}

#[test]
fn response_empty_and_success_range() {
    let r = Response::empty(204);
    assert!(r.is_success());
    assert!(!Response::empty(300).is_success());
    assert!(!Response::empty(199).is_success());
}
