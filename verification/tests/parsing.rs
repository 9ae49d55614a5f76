use api_client::error::Error;
use api_client::ApiClient;

#[test]
fn parse_response_decodes_json() {
    let v = ApiClient::parse_response("[{\"id\":1,\"active\":true}]").unwrap();
    let users: Vec<serde_json::Map<String, serde_json::Value>> =
        serde_json::from_value(v).unwrap();
    assert_eq!(users.len(), 1);
    assert_eq!(users[0].get("id").unwrap(), &serde_json::Value::from(1));
    assert_eq!(users[0].get("active").unwrap(), &serde_json::Value::Bool(true));
}

#[test]
fn parse_response_rejects_non_json() {
    let r = ApiClient::parse_response("definitely not json");
    assert!(matches!(r, Err(Error::JsonError(_))));
}

#[test]
fn parse_response_rejects_empty_body() {
    let r = ApiClient::parse_response("");
    assert!(matches!(r, Err(Error::JsonError(_))));
}

#[test]
fn wrong_shape_yields_decode_error() {
    // A body that is valid JSON still fails once the caller asks for a shape
    // it does not have: the typed decode step reports the error.
    let v = ApiClient::parse_response("{\"a\":1}").unwrap();
    let typed: Result<Vec<u64>, serde_json::Error> = serde_json::from_value(v);
    assert!(typed.is_err());
}

#[test]
fn round_trip_body_is_identity() {
    let v: serde_json::Value =
        serde_json::from_str("{\"name\":\"a\",\"n\":3,\"xs\":[1,2,3],\"ok\":true}").unwrap();
    let r = ApiClient::round_trip_body(v.clone()).unwrap();
    assert_eq!(r, v);
}

#[test]
fn round_trip_of_overdeep_body_is_decode_error() {
    // The serializer has no depth limit but the parser does: a value nested
    // past it renders to text that no longer parses, so the round trip
    // reports the JSON-decode error instead of handing back a value.
    let mut v = serde_json::Value::from(1);
    for _ in 0..200 {
        v = serde_json::Value::Array(vec![v]);
    }
    let r = api_client::ApiClient::round_trip_body(v);
    assert!(matches!(r, Err(Error::JsonError(_))));
}

#[test]
fn error_body_shaped_like_target_parses_as_success() {
    // A server answering HTTP 500 with a body that happens to have the
    // target's shape: the status code is never inspected, so the body parses
    // as a success.  Kept deliberately: this is the client's current,
    // documented behaviour.
    let body_of_500 = "{\"id\":7,\"active\":false}";
    let v = ApiClient::parse_response(body_of_500).unwrap();
    let rec: serde_json::Map<String, serde_json::Value> = serde_json::from_value(v).unwrap();
    assert_eq!(rec.get("id").unwrap(), &serde_json::Value::from(7));
}
