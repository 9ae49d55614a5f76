use api_client::error::Error;
use api_client::headers::HeaderMap;
use api_client::{ApiClient, AuthConfig, AuthType, AuthorizationHeaderConfig, Method, OAuth2Config};

fn oauth_config() -> OAuth2Config {
    OAuth2Config {
        client_id: "client-1".to_string(),
        client_secret: "SECRET-REDACTED".to_string(),
        authorize_path: "oauth/authorize".to_string(),
        auth_type: AuthType::BasicAuth,
        token_path: "oauth/token".to_string(),
        refresh_path: "oauth/refresh".to_string(),
        redirect_url: "https://app.example.com/callback".to_string(),
        scopes: vec!["read".to_string(), "write".to_string(), "read".to_string()],
    }
}

#[test]
fn new_no_auth_succeeds() {
    let client = ApiClient::new("https://api.example.com/v1/", AuthConfig::NoAuth, None).unwrap();
    let req = client.get("users", None, None).unwrap();
    assert_eq!(req.method, Method::Get);
    assert!(req.headers.entries.is_empty());
}

#[test]
fn new_rejects_invalid_base_url() {
    let r = ApiClient::new("not a url", AuthConfig::NoAuth, None);
    assert!(matches!(r, Err(Error::UrlError(_))));
}

#[test]
fn new_oauth2_resolves_endpoints() {
    let client = ApiClient::new(
        "https://auth.example.com/v1/",
        AuthConfig::OAuth2(oauth_config()),
        None,
    )
    .unwrap();
    let ex = client.exchange_code("abc".to_string()).unwrap();
    assert_eq!(ex.code, "abc");
    assert_eq!(ex.oauth.client_id, "client-1");
    assert_eq!(
        ex.oauth.authorize_url.as_str(),
        "https://auth.example.com/v1/oauth/authorize"
    );
    assert_eq!(ex.oauth.token_url.as_str(), "https://auth.example.com/v1/oauth/token");
    assert_eq!(
        ex.oauth.refresh_url.as_str(),
        "https://auth.example.com/v1/oauth/refresh"
    );
    assert_eq!(ex.oauth.redirect_url.as_str(), "https://app.example.com/callback");
    assert_eq!(ex.oauth.scopes, vec!["read", "write", "read"]);
}

#[test]
fn new_oauth2_rejects_invalid_redirect() {
    let mut cfg = oauth_config();
    cfg.redirect_url = "not a url".to_string();
    let r = ApiClient::new("https://auth.example.com/v1/", AuthConfig::OAuth2(cfg), None);
    assert!(matches!(r, Err(Error::UrlError(_))));
}

#[test]
fn exchange_code_without_oauth_is_client_error() {
    let client = ApiClient::new("https://api.example.com/", AuthConfig::NoAuth, None).unwrap();
    let r = client.exchange_code("abc".to_string());
    assert!(matches!(r, Err(Error::ClientError(ref m)) if m == "OAuth2 not in use"));
}

#[test]
fn refresh_without_oauth_is_client_error() {
    let client = ApiClient::new("https://api.example.com/", AuthConfig::NoAuth, None).unwrap();
    let r = client.refresh("tok".to_string());
    assert!(matches!(r, Err(Error::ClientError(ref m)) if m == "OAuth2 not in use"));
}

#[test]
fn auth_header_attached_to_requests() {
    let auth = AuthConfig::AuthorizationHeader(AuthorizationHeaderConfig {
        token: "Bearer s3cr3t".to_string(),
    });
    let client = ApiClient::new("https://api.example.com/v1/", auth, None).unwrap();
    let req = client.get("users", None, None).unwrap();
    let h = req.headers.get(&"authorization".to_string()).unwrap();
    assert_eq!(h.value, "Bearer s3cr3t");
    assert!(h.sensitive);
}

#[test]
fn default_headers_kept_beside_auth_token() {
    let mut defaults = HeaderMap::new();
    defaults.insert("accept".to_string(), "application/json".to_string());
    let auth = AuthConfig::AuthorizationHeader(AuthorizationHeaderConfig {
        token: "Bearer t0k".to_string(),
    });
    let client = ApiClient::new("https://api.example.com/v1/", auth, Some(defaults)).unwrap();
    let req = client.get("users", None, None).unwrap();
    assert_eq!(req.headers.get(&"accept".to_string()).unwrap().value, "application/json");
    assert_eq!(req.headers.get(&"authorization".to_string()).unwrap().value, "Bearer t0k");
}

#[test]
fn no_token_without_auth_header_mode() {
    let no_auth = ApiClient::new("https://api.example.com/v1/", AuthConfig::NoAuth, None).unwrap();
    let req = no_auth.get("users", None, None).unwrap();
    assert!(req.headers.get(&"authorization".to_string()).is_none());

    let oauth = ApiClient::new(
        "https://auth.example.com/v1/",
        AuthConfig::OAuth2(oauth_config()),
        None,
    )
    .unwrap();
    let req = oauth.get("users", None, None).unwrap();
    assert!(req.headers.get(&"authorization".to_string()).is_none());
}

#[test]
fn new_oauth2_rejects_invalid_endpoint_path() {
    let mut cfg = oauth_config();
    cfg.token_path = "https://[invalid".to_string();
    let r = ApiClient::new("https://auth.example.com/v1/", AuthConfig::OAuth2(cfg), None);
    assert!(matches!(r, Err(Error::UrlError(_))));
}

#[test]
fn per_request_headers_override_defaults() {
    let mut defaults = HeaderMap::new();
    defaults.insert("x-trace".to_string(), "1".to_string());
    let client =
        ApiClient::new("https://api.example.com/v1/", AuthConfig::NoAuth, Some(defaults)).unwrap();

    let mut extra = HeaderMap::new();
    extra.insert("x-trace".to_string(), "2".to_string());
    let req = client.get("users", None, Some(extra)).unwrap();
    let h = req.headers.get(&"x-trace".to_string()).unwrap();
    assert_eq!(h.value, "2");

    let plain = client.get("users", None, None).unwrap();
    let h = plain.headers.get(&"x-trace".to_string()).unwrap();
    assert_eq!(h.value, "1");
}

#[test]
fn base_url_join_semantics() {
    let with_slash =
        ApiClient::new("https://api.example.com/v1/", AuthConfig::NoAuth, None).unwrap();
    let req = with_slash.get("users/42", None, None).unwrap();
    assert_eq!(req.url.as_str(), "https://api.example.com/v1/users/42");

    let without_slash =
        ApiClient::new("https://api.example.com/v1", AuthConfig::NoAuth, None).unwrap();
    let req = without_slash.get("users/42", None, None).unwrap();
    assert_eq!(req.url.as_str(), "https://api.example.com/users/42");
}

#[test]
fn get_builds_query_in_order() {
    let client = ApiClient::new("https://api.example.com/v1/", AuthConfig::NoAuth, None).unwrap();
    let query = vec![
        ("active".to_string(), "true".to_string()),
        ("page".to_string(), "2".to_string()),
        ("active".to_string(), "false".to_string()),
    ];
    let req = client.get("users", Some(query.clone()), None).unwrap();
    assert_eq!(req.method, Method::Get);
    assert_eq!(req.query, query);
    assert!(req.body.is_none());
}

#[test]
fn verbs_map_to_methods() {
    let client = ApiClient::new("https://api.example.com/v1/", AuthConfig::NoAuth, None).unwrap();
    let body: serde_json::Value = serde_json::from_str("{\"name\":\"n\"}").unwrap();

    let req = client.post("users", Some(body.clone()), None).unwrap();
    assert_eq!(req.method, Method::Post);
    assert_eq!(req.body, Some(body.clone()));
    assert!(req.query.is_empty());

    let req = client.put("users/1", Some(body.clone()), None).unwrap();
    assert_eq!(req.method, Method::Put);
    assert_eq!(req.body, Some(body.clone()));

    let req = client.patch("users/1", Some(body.clone()), None).unwrap();
    assert_eq!(req.method, Method::Patch);
    assert_eq!(req.body, Some(body));

    let req = client.delete("users/1", None).unwrap();
    assert_eq!(req.method, Method::Delete);
    assert!(req.body.is_none());
    assert!(req.query.is_empty());
}
