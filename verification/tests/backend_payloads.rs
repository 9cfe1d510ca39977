use airbag::backends::PagerDuty;
use airbag::backends::SquadCast;
use airbag::json::JsonObject;
use airbag::json::JsonValue;
use airbag::retry::classify_status;
use airbag::retry::next_backoff;
use airbag::retry::RequestClass;
use airbag::Alert;
use airbag::Priority;
use airbag::Severity;

const TOKEN: &str = "token here";

fn str_at<'a>(payload: &'a JsonObject, key: &str) -> &'a str {
    payload.get(key).expect("missing member").as_str().expect("not a string")
}

fn obj_at<'a>(payload: &'a JsonObject, key: &str) -> &'a JsonObject {
    match payload.get(key).expect("missing member") {
        JsonValue::Obj(o) => o,
        _ => panic!("not an object"),
    }
}

#[test]
fn test_pagerduty() {
    let backend = PagerDuty::builder().token(TOKEN).build();
    let test_summary = "this is a test summary";

    let payload = backend.payload_for(&Alert::builder().title(test_summary).build());

    assert_eq!(str_at(&payload, "routing_key"), TOKEN);
    assert_eq!(str_at(&payload, "event_action"), "trigger");
    let inner = obj_at(&payload, "payload");
    assert_eq!(str_at(inner, "severity"), "critical");
    assert_eq!(str_at(inner, "source"), "airbag");
    assert_eq!(str_at(inner, "summary"), test_summary);
    assert!(payload.get("dedup_key").is_none());
}

#[test]
fn test_pagerduty_long_summary() {
    let backend = PagerDuty::builder().token(TOKEN).build();

    let test_summary = (0..1001)
        .map(|i| std::char::from_u32('0' as u32 + (i % 10)).unwrap())
        .collect::<String>();
    let mut truncated_summary = test_summary[..997].to_owned();
    truncated_summary.push_str("...");

    let payload = backend.payload_for(&Alert::builder().title(&test_summary).build());

    let inner = obj_at(&payload, "payload");
    assert_eq!(str_at(inner, "summary"), truncated_summary);
}

#[test]
fn test_pagerduty_dedup_key_and_details() {
    let backend = PagerDuty::builder().token(TOKEN).build();

    let payload = backend.payload_for(
        &Alert::builder()
            .title("t")
            .description("the details")
            .dedup_key("k1")
            .severity(Severity::Warning)
            .build(),
    );

    assert_eq!(str_at(&payload, "dedup_key"), "k1");
    let inner = obj_at(&payload, "payload");
    assert_eq!(str_at(inner, "severity"), "warning");
    assert_eq!(str_at(inner, "custom_details"), "the details");
}

#[test]
fn test_pagerduty_severity_from_priority() {
    let backend = PagerDuty::builder().token(TOKEN).build();

    let payload =
        backend.payload_for(&Alert::builder().title("t").priority(Priority::P3).build());

    let inner = obj_at(&payload, "payload");
    assert_eq!(str_at(inner, "severity"), "warning");
}

#[test]
fn test_pagerduty_respects_existing_fields() {
    let backend = PagerDuty::builder().token(TOKEN).build();

    let mut custom = JsonObject::new();
    custom.set("severity", JsonValue::Str("info".to_string()));
    let alert = Alert::builder()
        .title("t")
        .field("payload", JsonValue::Obj(custom))
        .build();

    let payload = backend.payload_for(&alert);

    let inner = obj_at(&payload, "payload");
    assert_eq!(str_at(inner, "severity"), "info");
    assert_eq!(str_at(inner, "summary"), "t");
}

#[test]
fn test_pagerduty_default_summary_and_base() {
    let backend = PagerDuty::builder().token(TOKEN).build();
    assert_eq!(backend.base(), "https://events.pagerduty.com");
    assert_eq!(backend.endpoint_path(), "/v2/enqueue");

    let payload = backend.payload_for(&Alert::builder().build());
    let inner = obj_at(&payload, "payload");
    assert_eq!(str_at(inner, "summary"), "Airbag alert");

    let with_override = PagerDuty::builder()
        .token(TOKEN)
        .base_url("http://127.0.0.1:8080")
        .build();
    assert_eq!(with_override.base(), "http://127.0.0.1:8080");
}

#[test]
fn test_squadcast() {
    let backend = SquadCast::builder().token("token-here").region("eu").build();

    let test_title = "this is a test summary";
    let test_description = "this is a test description";

    let payload = backend.payload_for(
        &Alert::builder().title(test_title).description(test_description).build(),
    );

    assert_eq!(str_at(&payload, "message"), test_title);
    assert_eq!(str_at(&payload, "description"), test_description);
    assert_eq!(str_at(&payload, "priority"), "P2");
    assert_eq!(backend.base(), "https://api.eu.squadcast.com");
    assert_eq!(backend.endpoint_path(), "/v2/incidents/api/token-here");
}

#[test]
fn test_squadcast_explicit_priority_and_dedup() {
    let backend = SquadCast::builder().token("t").region("us").build();

    let payload = backend.payload_for(
        &Alert::builder().title("x").priority(Priority::P4).dedup_key("k").build(),
    );

    assert_eq!(str_at(&payload, "priority"), "P4");
    assert_eq!(str_at(&payload, "dedup_key"), "k");
}

#[test]
fn test_squadcast_priority_from_severity() {
    let backend = SquadCast::builder().token("t").region("us").build();

    let payload =
        backend.payload_for(&Alert::builder().title("x").severity(Severity::Critical).build());

    assert_eq!(str_at(&payload, "priority"), "P1");
}

#[test]
fn test_retry_classification() {
    assert_eq!(classify_status(Some(202)), RequestClass::Success);
    assert_eq!(classify_status(Some(299)), RequestClass::Success);
    assert_eq!(classify_status(Some(301)), RequestClass::ServerSide);
    assert_eq!(classify_status(Some(400)), RequestClass::ClientSide);
    assert_eq!(classify_status(Some(403)), RequestClass::ClientSide);
    assert_eq!(classify_status(Some(500)), RequestClass::ServerSide);
    assert_eq!(classify_status(Some(503)), RequestClass::ServerSide);
    assert_eq!(classify_status(None), RequestClass::ServerSide);
}

#[test]
fn test_retry_backoff_doubles_and_caps() {
    let mut sleep: u64 = 500;
    let mut seen: Vec<u64> = Vec::new();
    for _ in 0..8 {
        seen.push(sleep);
        sleep = next_backoff(sleep);
    }
    assert_eq!(seen, vec![500, 1000, 2000, 4000, 8000, 16000, 30000, 30000]);
}
