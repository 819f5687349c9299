use add_service::config::{CONNECT_TIMEOUT_SECONDS, LISTEN_ADDRESS, LISTEN_PORT};
use add_service::response::{Response, STATUS_NOT_FOUND, STATUS_OK, STATUS_SERVER_ERROR};

fn object_with_result(sum: f64) -> String {
    let mut members = serde_json::Map::new();
    members.insert("result".to_string(), serde_json::Value::from(sum));
    serde_json::to_string(&serde_json::Value::Object(members)).expect("the object is written")
}

#[test]
fn statuses_have_their_numbers() {
    assert_eq!(STATUS_OK, 200);
    assert_eq!(STATUS_NOT_FOUND, 404);
    assert_eq!(STATUS_SERVER_ERROR, 500);
}

#[test]
fn health_response_is_empty() {
    assert_eq!(Response::health(), Response { status: 200, content_type: None, body: None });
}

#[test]
fn not_found_response_is_empty() {
    assert_eq!(Response::not_found(), Response { status: 404, content_type: None, body: None });
}

#[test]
fn failure_response_is_a_server_error() {
    assert_eq!(Response::failure(), Response { status: 500, content_type: None, body: None });
}

#[test]
fn result_response_holds_the_object() {
    assert_eq!(
        Response::result("2.0"),
        Response {
            status: 200,
            content_type: Some("application/json".to_string()),
            body: Some("{\"result\":2.0}".to_string()),
        }
    );
}

#[test]
fn result_body_is_the_object_that_serde_json_writes() {
    for sum in [2.0, 200.0, -0.5, 0.1 + 0.2, 1e300, 5e-324, 0.0, -0.0, f64::NAN, f64::INFINITY] {
        let number = serde_json::to_string(&sum).expect("the number is written");
        assert_eq!(Response::result(&number).body, Some(object_with_result(sum)));
    }
}

#[test]
fn result_body_parses_back_to_the_sum() {
    let number = serde_json::to_string(&3.25).expect("the number is written");
    let body = Response::result(&number).body.expect("a body");
    let value: serde_json::Value = serde_json::from_str(&body).expect("the body is JSON");
    assert_eq!(value.get("result").and_then(|v| v.as_f64()), Some(3.25));
    assert_eq!(value.as_object().map(|o| o.len()), Some(1));
}

#[test]
fn settings_are_fixed() {
    assert_eq!(CONNECT_TIMEOUT_SECONDS, 5);
    assert_eq!(LISTEN_ADDRESS, [127, 0, 0, 1]);
    assert_eq!(LISTEN_PORT, 8000);
}
