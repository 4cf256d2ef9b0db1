use feed_proxy::dispatch::{
    classify, handle_feed_body, inspect_body, own_response_status, InspectOutcome, RequestClass,
};

// 2024-01-03T00:00:00Z, in seconds since the Unix epoch.
const NOW: i64 = 1_704_240_000;

const FEED_HEAD: &str = "<?xml version=\"1.0\" encoding=\"utf-8\"?><feed xmlns=\"http://www.w3.org/2005/Atom\"><title>Example</title><id>urn:example:feed</id><updated>2024-01-01T00:00:00Z</updated>";

fn feed_with_published(published: &str) -> Vec<u8> {
    format!(
        "{}<entry><title>Post</title><id>urn:example:1</id><updated>2024-01-01T00:00:00Z</updated><published>{}</published></entry></feed>",
        FEED_HEAD, published
    )
    .into_bytes()
}

fn feed_without_entries() -> Vec<u8> {
    format!("{}</feed>", FEED_HEAD).into_bytes()
}

fn feed_with_undated_entry() -> Vec<u8> {
    format!(
        "{}<entry><title>Post</title><id>urn:example:1</id><updated>2024-01-01T00:00:00Z</updated></entry></feed>",
        FEED_HEAD
    )
    .into_bytes()
}

#[test]
fn atom_content_type_is_inspected() {
    let ct = b"application/atom+xml";
    assert_eq!(classify(Some(&ct[..])), RequestClass::Inspect);
}

#[test]
fn atom_content_type_with_parameters_is_inspected() {
    let ct = b"application/atom+xml; charset=utf-8";
    assert_eq!(classify(Some(&ct[..])), RequestClass::Inspect);
}

#[test]
fn json_content_type_passes_through() {
    let ct = b"application/json";
    assert_eq!(classify(Some(&ct[..])), RequestClass::PassThrough);
}

#[test]
fn missing_content_type_passes_through() {
    assert_eq!(classify(None), RequestClass::PassThrough);
}

#[test]
fn truncated_feed_media_type_passes_through() {
    let ct = b"application/atom";
    assert_eq!(classify(Some(&ct[..])), RequestClass::PassThrough);
}

#[test]
fn malformed_body_is_bad_request() {
    let outcome = inspect_body(b"this is not xml".to_vec(), NOW);
    assert!(matches!(outcome, InspectOutcome::BadRequest));
    assert_eq!(own_response_status(&outcome), Some(400));
}

#[test]
fn non_feed_xml_is_bad_request() {
    let outcome = inspect_body(b"<?xml version=\"1.0\"?><html></html>".to_vec(), NOW);
    assert!(matches!(outcome, InspectOutcome::BadRequest));
}

#[test]
fn two_day_old_entry_is_blocked() {
    // Published 2024-01-01T00:00:00Z; now is two days later.
    let outcome = inspect_body(feed_with_published("2024-01-01T00:00:00Z"), NOW);
    assert!(matches!(outcome, InspectOutcome::Blocked));
    assert_eq!(own_response_status(&outcome), Some(200));
}

#[test]
fn one_hour_old_entry_is_forwarded() {
    let body = feed_with_published("2024-01-02T23:00:00Z");
    let outcome = inspect_body(body.clone(), NOW);
    match outcome {
        InspectOutcome::Forward(sent) => assert_eq!(sent, body),
        other => panic!("expected Forward, got {:?}", other),
    }
}

#[test]
fn forwarded_body_is_byte_identical() {
    let body = feed_with_published("2024-01-02T23:00:00Z");
    match inspect_body(body.clone(), NOW) {
        InspectOutcome::Forward(sent) => {
            assert_eq!(sent, body);
            assert_eq!(own_response_status(&InspectOutcome::Forward(sent)), None);
        }
        other => panic!("expected Forward, got {:?}", other),
    }
}

#[test]
fn feed_without_entries_is_blocked() {
    let outcome = inspect_body(feed_without_entries(), NOW);
    assert!(matches!(outcome, InspectOutcome::Blocked));
}

#[test]
fn undated_entry_is_forwarded() {
    let body = feed_with_undated_entry();
    match inspect_body(body.clone(), NOW) {
        InspectOutcome::Forward(sent) => assert_eq!(sent, body),
        other => panic!("expected Forward, got {:?}", other),
    }
}

#[test]
fn entry_fresh_within_window_is_forwarded_at_real_clock() {
    // Far in the future, so it stays within the window whatever the clock says.
    let body = feed_with_published("9999-01-01T00:00:00Z");
    match handle_feed_body(body.clone()) {
        InspectOutcome::Forward(sent) => assert_eq!(sent, body),
        other => panic!("expected Forward, got {:?}", other),
    }
}

#[test]
fn malformed_body_is_bad_request_at_real_clock() {
    let outcome = handle_feed_body(b"<feed".to_vec());
    assert!(matches!(outcome, InspectOutcome::BadRequest));
}

#[test]
fn stale_then_fresh_mix_is_forwarded() {
    let body = format!(
        "{}<entry><title>Old</title><id>urn:example:1</id><updated>2024-01-01T00:00:00Z</updated><published>2024-01-01T00:00:00Z</published></entry><entry><title>New</title><id>urn:example:2</id><updated>2024-01-02T23:00:00Z</updated><published>2024-01-02T23:00:00Z</published></entry></feed>",
        FEED_HEAD
    )
    .into_bytes();
    match inspect_body(body.clone(), NOW) {
        InspectOutcome::Forward(sent) => assert_eq!(sent, body),
        other => panic!("expected Forward, got {:?}", other),
    }
}
