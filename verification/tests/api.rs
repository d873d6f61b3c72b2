use creditbar::api::{
    empty_request, interpret_response, notification_items_from_data, orgs_from_data, plan_detail_from_data,
    plan_detail_request, plan_key_to_display_name, with_app_id, ApiError, Envelope,
};
use creditbar::json::JsonValue;

fn s(x: &str) -> JsonValue {
    JsonValue::Str(x.to_string())
}

fn obj(fields: Vec<(&str, JsonValue)>) -> JsonValue {
    JsonValue::Object(fields.into_iter().map(|(k, v)| (k.to_string(), v)).collect())
}

fn text_of(v: Option<&JsonValue>) -> Option<String> {
    match v {
        Some(JsonValue::Str(t)) => Some(t.clone()),
        _ => None,
    }
}

#[test]
fn app_id_added_when_missing() {
    let body = with_app_id(obj(vec![("organization_id", s("org1"))]));
    assert_eq!(text_of(body.get("app_id")), Some("1".to_string()));
    assert_eq!(text_of(body.get("organization_id")), Some("org1".to_string()));
}

#[test]
fn app_id_kept_when_present() {
    let body = with_app_id(obj(vec![("app_id", s("7"))]));
    assert_eq!(text_of(body.get("app_id")), Some("7".to_string()));
    match body {
        JsonValue::Object(f) => assert_eq!(f.len(), 1),
        _ => panic!("object expected"),
    }
    assert!(matches!(with_app_id(JsonValue::Null), JsonValue::Null));
}

#[test]
fn request_bodies_carry_app_id() {
    let e = empty_request();
    assert_eq!(text_of(e.get("app_id")), Some("1".to_string()));
    let p = plan_detail_request("abc");
    assert_eq!(text_of(p.get("organization_id")), Some("abc".to_string()));
    assert_eq!(text_of(p.get("app_id")), Some("1".to_string()));
}

fn envelope(kind: Option<&str>, message: Option<&str>, data: Option<JsonValue>) -> Envelope {
    Envelope { kind: kind.map(|k| k.to_string()), message: message.map(|m| m.to_string()), data }
}

#[test]
fn response_success_returns_data() {
    let r = interpret_response(200, "200 OK".into(), Some(envelope(Some("RXSUCCESS"), None, Some(JsonValue::PosInt(3)))), "{}".into());
    assert!(matches!(r, Ok(JsonValue::PosInt(3))));
    let r = interpret_response(201, "201 Created".into(), Some(envelope(None, None, None)), "{}".into());
    assert!(matches!(r, Ok(JsonValue::Null)));
}

#[test]
fn response_rejected_kind_is_error() {
    let r = interpret_response(200, "200 OK".into(), Some(envelope(Some("RXERROR"), Some("bad token"), None)), "".into());
    assert!(matches!(r, Err(ApiError::Rejected(m)) if m == "bad token"));
    let r = interpret_response(200, "200 OK".into(), Some(envelope(Some("RXERROR"), None, None)), "".into());
    assert!(matches!(r, Err(ApiError::Rejected(m)) if m == "API returned error"));
}

#[test]
fn response_http_error_uses_message_or_body() {
    let r = interpret_response(401, "401 Unauthorized".into(), Some(envelope(None, Some("expired"), None)), "raw".into());
    assert!(matches!(r, Err(ApiError::Http { status: 401, ref status_line, ref detail }) if status_line == "401 Unauthorized" && detail == "expired"));
    let r = interpret_response(500, "500 Internal Server Error".into(), None, "oops".into());
    assert!(matches!(r, Err(ApiError::Http { status: 500, ref detail, .. }) if detail == "oops"));
    let r = interpret_response(200, "200 OK".into(), None, "not json".into());
    assert!(matches!(r, Err(ApiError::Envelope)));
}

#[test]
fn orgs_read_from_any_shape() {
    let item1 = obj(vec![("organization_id", JsonValue::PosInt(42)), ("organization_name", s("Acme"))]);
    let item2 = obj(vec![("uid", s("u-2")), ("title", s("Beta"))]);
    let item3 = obj(vec![("id", s("c3"))]);
    let item4 = obj(vec![("name", s("No id"))]);
    let item5 = obj(vec![("organization_id", JsonValue::Null), ("id", s("ignored"))]);
    let data = obj(vec![("organizations", JsonValue::Array(vec![item1, item2, item3, item4, item5]))]);
    let orgs = orgs_from_data(&data).ok().unwrap();
    let got: Vec<(String, String)> = orgs.into_iter().map(|o| (o.id, o.name)).collect();
    assert_eq!(
        got,
        vec![
            ("42".to_string(), "Acme".to_string()),
            ("u-2".to_string(), "Beta".to_string()),
            ("c3".to_string(), "c3".to_string()),
        ]
    );
    let neg = JsonValue::Array(vec![obj(vec![("id", JsonValue::NegInt(-5))])]);
    assert_eq!(orgs_from_data(&neg).ok().unwrap()[0].id, "-5");
}

#[test]
fn orgs_shape_errors() {
    let data = obj(vec![("organizations", s("x"))]);
    assert!(matches!(orgs_from_data(&data), Err(ApiError::OrgsShape)));
    let data = obj(vec![("organizations", s("x")), ("data", JsonValue::Array(vec![]))]);
    assert!(matches!(orgs_from_data(&data), Ok(v) if v.is_empty()));
    assert!(matches!(orgs_from_data(&JsonValue::Null), Err(ApiError::OrgsNotArray)));
}

#[test]
fn plan_display_names() {
    assert_eq!(plan_key_to_display_name("chatbot_professional_monthly"), "Professional");
    assert_eq!(plan_key_to_display_name("chatbot_professional_yearly"), "Professional (Yearly)");
    assert_eq!(plan_key_to_display_name("Agency_Starter_Annual"), "Agency Starter (Yearly)");
    assert_eq!(plan_key_to_display_name("chatbot_trial_yearly"), "Trial");
    assert_eq!(plan_key_to_display_name("chatbot_trial"), "Trial");
    assert_eq!(plan_key_to_display_name("prime_exclusive"), "Prime Exclusive");
    assert_eq!(plan_key_to_display_name("agency_growth"), "Agency Growth");
    assert_eq!(plan_key_to_display_name("growth_monthly"), "Growth");
    assert_eq!(plan_key_to_display_name("Custom_Plan"), "Custom_Plan");
}

#[test]
fn plan_detail_reads_nested_fields() {
    let usage = obj(vec![("credits", obj(vec![("usage", JsonValue::PosInt(5)), ("limit", JsonValue::PosInt(10))]))]);
    let data = obj(vec![
        ("plan", s("chatbot_essential_monthly")),
        ("status", s("past_due")),
        ("activePlanDetails", obj(vec![("usage", usage)])),
        ("subscriptionData", obj(vec![
            ("current_period_start", s("1700000000")),
            ("trail_plan", obj(vec![("expiry_date", s("2024-01-01T00:00:00Z"))])),
        ])),
        ("next_billing_cycle", obj(vec![("period_end", JsonValue::PosInt(1_800_000_000_000))])),
    ]);
    let p = plan_detail_from_data(data).ok().unwrap();
    assert_eq!(p.plan_name.as_deref(), Some("Essential"));
    assert_eq!(p.subscription_status.as_deref(), Some("past_due"));
    assert_eq!(p.current_period_start, Some(1_700_000_000));
    // period bounds are taken as they are, without the millisecond rule
    assert_eq!(p.current_period_end, Some(1_800_000_000_000));
    assert_eq!(p.trial_expiry, Some(1_704_067_200));
    assert!(p.usage.get("credits").is_some());
}

#[test]
fn plan_detail_fallbacks() {
    let data = obj(vec![
        ("plan", JsonValue::PosInt(3)),
        ("plan_title", s("Legacy")),
        ("subscription_status", s("active")),
        ("current_period_end", JsonValue::PosInt(99)),
        ("subscriptionData", obj(vec![("trail_plan", JsonValue::Null)])),
    ]);
    let p = plan_detail_from_data(data).ok().unwrap();
    assert_eq!(p.plan_name.as_deref(), Some("Legacy"));
    assert_eq!(p.subscription_status.as_deref(), Some("active"));
    assert_eq!(p.current_period_start, None);
    assert_eq!(p.current_period_end, Some(99));
    assert_eq!(p.trial_expiry, None);
    assert!(matches!(p.usage, JsonValue::Null));
}

#[test]
fn plan_detail_rejects_non_object() {
    let r = plan_detail_from_data(JsonValue::Array(vec![]));
    assert!(matches!(r, Err(ApiError::PlanShape(JsonValue::Array(v))) if v.is_empty()));
}

#[test]
fn notification_items_shapes() {
    let items = notification_items_from_data(obj(vec![("data", JsonValue::Array(vec![JsonValue::PosInt(1), JsonValue::PosInt(2)]))]));
    assert_eq!(items.ok().unwrap().len(), 2);
    assert!(matches!(notification_items_from_data(JsonValue::Null), Ok(v) if v.is_empty()));
    assert!(matches!(notification_items_from_data(obj(vec![])), Err(ApiError::NotificationsShape)));
    assert!(matches!(notification_items_from_data(s("x")), Err(ApiError::NotificationsNotArray)));
    let direct = notification_items_from_data(JsonValue::Array(vec![JsonValue::Null]));
    assert_eq!(direct.ok().unwrap().len(), 1);
}
