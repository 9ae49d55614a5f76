//! A typed HTTP API client core: one base URL, one of three authentication
//! modes, and a single request-building path shared by the five verb methods,
//! plus the decision layer for the OAuth2 code-exchange and refresh flows.
//!
//! The crate resolves URLs, assembles and checks requests, and parses
//! response bodies; the network round trip itself — and the typed decode of
//! the parsed JSON into a caller-chosen shape — is left to the embedding
//! application.
use vstd::prelude::*;

pub mod error;
pub mod headers;
pub mod json;
pub mod urls;

use crate::error::Error;
use crate::headers::{lookup, valid_header_value, HeaderMap, HeaderView};
use crate::json::json_value_of;
use crate::urls::{joined_url, parsed_url, url_str};

verus! {

/// How OAuth2 client credentials travel: in the request body, or as a basic
/// authorization header.
#[derive(Clone, Copy, PartialEq, Eq, Structural, Debug)]
pub enum AuthType {
    RequestBody,
    BasicAuth,
}

/// The five verbs the client can issue.
#[derive(Clone, Copy, PartialEq, Eq, Structural, Debug)]
pub enum Method {
    Get,
    Post,
    Put,
    Patch,
    Delete,
}

pub struct AuthorizationHeaderConfig {
    pub token: String,
}

pub struct OAuth2Config {
    pub client_id: String,
    pub client_secret: String,
    pub authorize_path: String,
    pub auth_type: AuthType,
    pub token_path: String,
    pub refresh_path: String,
    pub redirect_url: String,
    pub scopes: Vec<String>,
}

/// The authentication mode, chosen at construction and fixed for the
/// client's lifetime.
pub enum AuthConfig {
    NoAuth,
    AuthorizationHeader(AuthorizationHeaderConfig),
    OAuth2(OAuth2Config),
}

/// The resolved OAuth2 state: the three endpoint paths joined against the
/// base URL, the parsed redirect URL, and the credentials and scopes as
/// given (scopes keep their order and are not deduplicated).
pub struct OAuthClient {
    pub client_id: String,
    pub client_secret: String,
    pub auth_type: AuthType,
    pub authorize_url: url::Url,
    pub token_url: url::Url,
    pub refresh_url: url::Url,
    pub redirect_url: url::Url,
    pub scopes: Vec<String>,
}

/// A fully built request, ready for a transport to dispatch: the verb, the
/// resolved absolute URL, the query pairs in order, the optional JSON body,
/// and the headers (client defaults first, per-request entries after them,
/// so the latter override on a name clash).
pub struct ApiRequest {
    pub method: Method,
    pub url: url::Url,
    pub query: Vec<(String, String)>,
    pub body: Option<serde_json::Value>,
    pub headers: HeaderMap,
}

/// The client: default headers (including a static bearer token where one
/// was configured), the OAuth2 state iff OAuth2 was configured, and the
/// parsed absolute base URL.  Built once; not mutated afterwards.
pub struct ApiClient {
    pub headers: HeaderMap,
    pub oauth_client: Option<OAuthClient>,
    pub base_url: url::Url,
}

/// Whether every URL contained in an OAuth2 configuration resolves: the
/// three endpoint paths against the base, and the redirect URL on its own.
pub open spec fn oauth_resolves(base: Seq<char>, c: OAuth2Config) -> bool {
    &&& joined_url(base, c.authorize_path@) is Some
    &&& joined_url(base, c.token_path@) is Some
    &&& joined_url(base, c.refresh_path@) is Some
    &&& parsed_url(c.redirect_url@) is Some
}

/// Whether construction succeeds: the base URL parses, and under OAuth2
/// every contained URL resolves.
pub open spec fn new_ok(api_url: Seq<char>, auth: AuthConfig) -> bool {
    &&& parsed_url(api_url) is Some
    &&& (auth matches AuthConfig::OAuth2(c) ==> oauth_resolves(parsed_url(api_url)->Some_0, c))
}

/// The default header set a client starts from: the headers given at
/// construction, with the bearer token appended — marked sensitive — under
/// static-token authentication, and unchanged otherwise.
pub open spec fn auth_headers(dh: Seq<HeaderView>, auth: AuthConfig) -> Seq<HeaderView> {
    match auth {
        AuthConfig::AuthorizationHeader(c) => dh.push(("authorization"@, c.token@, true)),
        _ => dh,
    }
}

/// How a resolved OAuth2 state relates to the configuration it came from.
pub open spec fn oauth_client_matches(oc: OAuthClient, base: Seq<char>, c: OAuth2Config) -> bool {
    &&& oc.client_id@ == c.client_id@
    &&& oc.client_secret@ == c.client_secret@
    &&& oc.auth_type == c.auth_type
    &&& url_str(oc.authorize_url) == joined_url(base, c.authorize_path@)->Some_0
    &&& url_str(oc.token_url) == joined_url(base, c.token_path@)->Some_0
    &&& url_str(oc.refresh_url) == joined_url(base, c.refresh_path@)->Some_0
    &&& url_str(oc.redirect_url) == parsed_url(c.redirect_url@)->Some_0
    &&& oc.scopes == c.scopes
}

pub open spec fn opt_header_view(h: Option<HeaderMap>) -> Seq<HeaderView> {
    match h {
        Some(m) => m@,
        None => Seq::empty(),
    }
}

pub open spec fn opt_query_view(q: Option<Vec<(String, String)>>) -> Seq<(String, String)> {
    match q {
        Some(v) => v@,
        None => Seq::empty(),
    }
}

/// What a request-building call leaves behind: it succeeds exactly where the
/// path resolves against the base URL, and then every part of the request is
/// pinned — the verb, the resolved URL, the query pairs in their given
/// order, the body, and the merged headers; a failure is a URL error.
pub open spec fn built_request(
    client: ApiClient,
    method: Method,
    path: Seq<char>,
    query: Seq<(String, String)>,
    body: Option<serde_json::Value>,
    extra: Seq<HeaderView>,
    r: Result<ApiRequest, Error>,
) -> bool {
    &&& (r is Ok <==> joined_url(url_str(client.base_url), path) is Some)
    &&& (r matches Ok(req) ==> {
        &&& req.method == method
        &&& url_str(req.url) == joined_url(url_str(client.base_url), path)->Some_0
        &&& req.query@ == query
        &&& req.body == body
        &&& req.headers@ == client.headers@ + extra
    })
    &&& (r matches Err(e) ==> e is UrlError)
}

impl ApiClient {
    /// Builds a client from a base URL, an authentication mode, and optional
    /// default headers.  Succeeds exactly where every contained URL parses
    /// or resolves (`new_ok`); any failure is a URL error.  The resulting
    /// client holds OAuth2 state iff the OAuth2 mode was given.  A static
    /// bearer token must be a legal header value; an illegal one is a
    /// process-level misconfiguration, left outside this function's domain.
    pub fn new(api_url: &str, auth: AuthConfig, default_headers: Option<HeaderMap>) -> (r: Result<
        ApiClient,
        Error,
    >)
        requires
            auth matches AuthConfig::AuthorizationHeader(c) ==> valid_header_value(c.token@),
        ensures
            r is Ok <==> new_ok(api_url@, auth),
            r matches Ok(client) ==> {
                &&& url_str(client.base_url) == parsed_url(api_url@)->Some_0
                &&& client.headers@ == auth_headers(opt_header_view(default_headers), auth)
                &&& (client.oauth_client is Some <==> auth is OAuth2)
                &&& (auth matches AuthConfig::OAuth2(c) ==> oauth_client_matches(
                    client.oauth_client->Some_0,
                    parsed_url(api_url@)->Some_0,
                    c,
                ))
            },
            r matches Err(e) ==> e is UrlError,
    {
        let base_url = match crate::urls::parse_url(api_url) {
            Ok(u) => u,
            Err(e) => { return Err(Error::UrlError(e)) },
        };
        let mut headers = match default_headers {
            Some(h) => h,
            None => HeaderMap::new(),
        };
        let oauth_client: Option<OAuthClient> = match auth {
            AuthConfig::AuthorizationHeader(c) => {
                headers.insert_sensitive("authorization".to_owned(), c.token);
                None
            },
            AuthConfig::OAuth2(c) => {
                let authorize_url = match crate::urls::join_url(&base_url, c.authorize_path.as_str()) {
                    Ok(u) => u,
                    Err(e) => { return Err(Error::UrlError(e)) },
                };
                let token_url = match crate::urls::join_url(&base_url, c.token_path.as_str()) {
                    Ok(u) => u,
                    Err(e) => { return Err(Error::UrlError(e)) },
                };
                let refresh_url = match crate::urls::join_url(&base_url, c.refresh_path.as_str()) {
                    Ok(u) => u,
                    Err(e) => { return Err(Error::UrlError(e)) },
                };
                let redirect_url = match crate::urls::parse_url(c.redirect_url.as_str()) {
                    Ok(u) => u,
                    Err(e) => { return Err(Error::UrlError(e)) },
                };
                Some(
                    OAuthClient {
                        client_id: c.client_id,
                        client_secret: c.client_secret,
                        auth_type: c.auth_type,
                        authorize_url,
                        token_url,
                        refresh_url,
                        redirect_url,
                        scopes: c.scopes,
                    },
                )
            },
            AuthConfig::NoAuth => None,
        };
        Ok(ApiClient { headers, oauth_client, base_url })
    }

    /// The one request-building path all five verbs share: resolves the path
    /// against the base URL, appends the query pairs in order, attaches the
    /// optional JSON body, and merges the per-request headers behind the
    /// client's defaults so that they override on a name clash.
    ///
    /// Resolution follows RFC 3986: a base URL whose path does not end in a
    /// slash has its last segment *replaced* by the request path, so
    /// `…/v1/users` against base `…/v1` resolves to `…/users`; end the base
    /// URL with a slash to keep its last segment.
    pub fn handle_request(
        &self,
        method: Method,
        path: &str,
        query: Option<Vec<(String, String)>>,
        data: Option<serde_json::Value>,
        headers: Option<HeaderMap>,
    ) -> (r: Result<ApiRequest, Error>)
        ensures
            built_request(*self, method, path@, opt_query_view(query), data, opt_header_view(headers), r),
    {
        let url = match crate::urls::join_url(&self.base_url, path) {
            Ok(u) => u,
            Err(e) => { return Err(Error::UrlError(e)) },
        };
        let q: Vec<(String, String)> = match query {
            Some(q) => q,
            None => Vec::new(),
        };
        let mut hs = self.headers.duplicate();
        match headers {
            Some(h) => hs.append(h),
            None => (),
        }
        Ok(ApiRequest { method, url, query: q, body: data, headers: hs })
    }

    pub fn get(&self, path: &str, query: Option<Vec<(String, String)>>, headers: Option<HeaderMap>) -> (r:
        Result<ApiRequest, Error>)
        ensures
            built_request(*self, Method::Get, path@, opt_query_view(query), None, opt_header_view(headers), r),
    {
        self.handle_request(Method::Get, path, query, None, headers)
    }

    pub fn post(&self, path: &str, data: Option<serde_json::Value>, headers: Option<HeaderMap>) -> (r:
        Result<ApiRequest, Error>)
        ensures
            built_request(*self, Method::Post, path@, Seq::empty(), data, opt_header_view(headers), r),
    {
        self.handle_request(Method::Post, path, None, data, headers)
    }

    pub fn put(&self, path: &str, data: Option<serde_json::Value>, headers: Option<HeaderMap>) -> (r:
        Result<ApiRequest, Error>)
        ensures
            built_request(*self, Method::Put, path@, Seq::empty(), data, opt_header_view(headers), r),
    {
        self.handle_request(Method::Put, path, None, data, headers)
    }

    pub fn patch(&self, path: &str, data: Option<serde_json::Value>, headers: Option<HeaderMap>) -> (r:
        Result<ApiRequest, Error>)
        ensures
            built_request(*self, Method::Patch, path@, Seq::empty(), data, opt_header_view(headers), r),
    {
        self.handle_request(Method::Patch, path, None, data, headers)
    }

    pub fn delete(&self, path: &str, headers: Option<HeaderMap>) -> (r: Result<ApiRequest, Error>)
        ensures
            built_request(*self, Method::Delete, path@, Seq::empty(), None, opt_header_view(headers), r),
    {
        self.handle_request(Method::Delete, path, None, None, headers)
    }

    /// The OAuth2 state, or the client-configuration error where the client
    /// was not built with OAuth2.
    pub fn ensure_oauth(&self) -> (r: Result<&OAuthClient, Error>)
        ensures
            r is Ok <==> self.oauth_client is Some,
            r matches Ok(oc) ==> *oc == self.oauth_client->Some_0,
            r matches Err(e) ==> e matches Error::ClientError(m) && m@ == "OAuth2 not in use"@,
    {
        match &self.oauth_client {
            Some(oc) => Ok(oc),
            None => Err(Error::ClientError("OAuth2 not in use".to_owned())),
        }
    }

    /// The authorization-code exchange, up to the wire: succeeds exactly
    /// where the client holds OAuth2 state, and then hands back that state
    /// with the code, for a transport to execute against the token endpoint.
    /// Without OAuth2 state nothing is handed to any transport: the
    /// client-configuration error comes back instead.
    pub fn exchange_code<'a>(&'a self, code: String) -> (r: Result<CodeExchange<'a>, Error>)
        ensures
            r is Ok <==> self.oauth_client is Some,
            r matches Ok(ex) ==> *ex.oauth == self.oauth_client->Some_0 && ex.code@ == code@,
            r matches Err(e) ==> e matches Error::ClientError(m) && m@ == "OAuth2 not in use"@,
    {
        let oauth = match self.ensure_oauth() {
            Ok(o) => o,
            Err(e) => { return Err(e) },
        };
        Ok(CodeExchange { oauth, code })
    }

    /// The refresh-token exchange, up to the wire; the same preconditions
    /// and the same failure as `exchange_code`.
    pub fn refresh<'a>(&'a self, refresh_token: String) -> (r: Result<RefreshExchange<'a>, Error>)
        ensures
            r is Ok <==> self.oauth_client is Some,
            r matches Ok(ex) ==> *ex.oauth == self.oauth_client->Some_0
                && ex.refresh_token@ == refresh_token@,
            r matches Err(e) ==> e matches Error::ClientError(m) && m@ == "OAuth2 not in use"@,
    {
        let oauth = match self.ensure_oauth() {
            Ok(o) => o,
            Err(e) => { return Err(e) },
        };
        Ok(RefreshExchange { oauth, refresh_token })
    }

    /// Parses a response body.  The body parses as JSON exactly where this
    /// returns the parsed value; anything else — empty, not JSON — is the
    /// JSON-decode error.  The HTTP status code is deliberately not an input:
    /// a non-2xx response whose body parses is indistinguishable from a
    /// success, the behaviour this client is specified to keep.
    pub fn parse_response(text: &str) -> (r: Result<serde_json::Value, Error>)
        ensures
            r is Ok <==> json_value_of(text@) is Some,
            r matches Ok(v) ==> v == json_value_of(text@)->Some_0,
            r matches Err(e) ==> e is JsonError,
    {
        match crate::json::parse_json(text) {
            Ok(v) => Ok(v),
            Err(e) => Err(Error::JsonError(e)),
        }
    }

    /// Law: a request body rendered to its wire text and parsed back as a
    /// response body comes back unchanged, whenever the rendered text parses
    /// at all — the serialize/parse round trip over the JSON boundary is the
    /// identity on every value the parser accepts.  The one exception is a
    /// value nested beyond the parser's recursion limit, which renders fine
    /// but comes back as the JSON-decode error.
    pub fn round_trip_body(body: serde_json::Value) -> (r: Result<serde_json::Value, Error>)
        ensures
            r is Ok <==> json_value_of(crate::json::json_text_of(body)) is Some,
            r matches Ok(v) ==> v == body,
            r matches Err(e) ==> e is JsonError,
    {
        let text = crate::json::render_json(&body);
        ApiClient::parse_response(text.as_str())
    }
}

/// An authorization-code exchange ready to execute: the resolved OAuth2
/// state and the code.
pub struct CodeExchange<'a> {
    pub oauth: &'a OAuthClient,
    pub code: String,
}

/// A refresh-token exchange ready to execute: the resolved OAuth2 state and
/// the refresh token.
pub struct RefreshExchange<'a> {
    pub oauth: &'a OAuthClient,
    pub refresh_token: String,
}

/// Law: a client configured with a static bearer token carries it on every
/// request it builds — the built request's headers resolve "authorization"
/// to the configured token, marked sensitive, as long as the per-request
/// headers do not override that name.
pub proof fn lemma_request_carries_token(
    dh: Seq<HeaderView>,
    auth: AuthConfig,
    client_headers: Seq<HeaderView>,
    req_headers: Seq<HeaderView>,
    extra: Seq<HeaderView>,
)
    requires
        auth is AuthorizationHeader,
        client_headers == auth_headers(dh, auth),
        req_headers == client_headers + extra,
        lookup(extra, "authorization"@) is None,
    ensures
        lookup(req_headers, "authorization"@) == Some(
            (auth->AuthorizationHeader_0.token@, true),
        ),
{
    crate::headers::lemma_lookup_concat(client_headers, extra, "authorization"@);
    assert(client_headers.last() == ("authorization"@, auth->AuthorizationHeader_0.token@, true));
}

} // verus!
