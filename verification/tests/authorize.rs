use oauth2::basic::BasicClient;
use oauth2::insecure;
use oauth2::query::{extend_query, params_fit, push_param};
use oauth2::AuthType;

fn client() -> BasicClient {
    BasicClient::new("aaa", Some("bbb"), "http://example.com/auth", "http://example.com/token")
        .unwrap()
}

#[test]
fn authorize_url_has_response_type_client_id_and_state() {
    let url = client().authorize_url("csrf_token".to_string());
    assert_eq!(
        url.as_str(),
        "http://example.com/auth?response_type=code&client_id=aaa&state=csrf_token"
    );
}

#[test]
fn authorize_url_implicit_asks_for_a_token() {
    let url = client().authorize_url_implicit("csrf_token".to_string());
    assert_eq!(
        url.as_str(),
        "http://example.com/auth?response_type=token&client_id=aaa&state=csrf_token"
    );
}

#[test]
fn authorize_url_omits_scope_without_scopes() {
    let url = client().authorize_url("s".to_string());
    assert!(url.query_pairs().all(|(key, _)| key != "scope"));
}

#[test]
fn authorize_url_joins_scopes_in_order() {
    let url = client().add_scope("read").add_scope("write").authorize_url("s".to_string());
    assert_eq!(
        url.as_str(),
        "http://example.com/auth?response_type=code&client_id=aaa&scope=read+write&state=s"
    );
    let scopes: Vec<String> = url
        .query_pairs()
        .filter(|(key, _)| key == "scope")
        .map(|(_, value)| value.into_owned())
        .collect();
    assert_eq!(scopes, vec!["read write".to_string()]);
}

#[test]
fn authorize_url_keeps_a_single_empty_scope() {
    let url = client().add_scope("").authorize_url("s".to_string());
    assert_eq!(
        url.as_str(),
        "http://example.com/auth?response_type=code&client_id=aaa&scope=&state=s"
    );
}

#[test]
fn authorize_url_has_redirect_uri_only_when_set() {
    let without = client().authorize_url("s".to_string());
    assert!(without.query_pairs().all(|(key, _)| key != "redirect_uri"));
    let with = client().set_redirect_url("http://redirect/here").authorize_url("s".to_string());
    assert_eq!(
        with.as_str(),
        "http://example.com/auth?response_type=code&client_id=aaa&redirect_uri=http%3A%2F%2Fredirect%2Fhere&state=s"
    );
}

#[test]
fn authorize_url_does_not_depend_on_auth_type() {
    let basic = client().add_scope("read").set_auth_type(AuthType::BasicAuth);
    let body = client().add_scope("read").set_auth_type(AuthType::RequestBody);
    let a = basic.authorize_url("s".to_string());
    let b = body.authorize_url("s".to_string());
    assert_eq!(a, b);
    assert!(a.query_pairs().all(|(key, _)| key != "auth_type"));
    assert!(!a.as_str().contains("bbb"));
}

#[test]
fn authorize_url_extension_appends_extra_params_in_order() {
    let url = client()
        .set_redirect_url("http://r")
        .add_scope("a")
        .authorize_url_extension("code token", &[("foo", "bar"), ("baz", "q x")]);
    assert_eq!(
        url.as_str(),
        "http://example.com/auth?response_type=code+token&client_id=aaa&redirect_uri=http%3A%2F%2Fr&scope=a&foo=bar&baz=q+x"
    );
}

#[test]
fn authorize_url_extension_repeats_a_reserved_key() {
    let url = client().authorize_url_extension("code", &[("client_id", "other")]);
    assert_eq!(
        url.as_str(),
        "http://example.com/auth?response_type=code&client_id=aaa&client_id=other"
    );
}

#[test]
fn insecure_authorize_url_has_no_state() {
    let url = insecure::authorize_url(&client());
    assert_eq!(url.as_str(), "http://example.com/auth?response_type=code&client_id=aaa");
}

#[test]
fn insecure_authorize_url_implicit_has_no_state() {
    let url = insecure::authorize_url_implicit(&client());
    assert_eq!(url.as_str(), "http://example.com/auth?response_type=token&client_id=aaa");
}

#[test]
fn authorize_url_keeps_the_query_and_fragment_of_the_endpoint() {
    let client =
        BasicClient::new("aaa", None, "http://example.com/auth?foo=bar#frag", "http://t/").unwrap();
    let url = client.authorize_url("s".to_string());
    assert_eq!(
        url.as_str(),
        "http://example.com/auth?foo=bar&response_type=code&client_id=aaa&state=s#frag"
    );
}

#[test]
fn authorize_url_encodes_what_is_not_plain() {
    let client = BasicClient::new("a&b=c", None, "http://example.com/auth", "http://t/").unwrap();
    let url = client.authorize_url("\u{e9}t\u{e9}+1".to_string());
    assert_eq!(
        url.as_str(),
        "http://example.com/auth?response_type=code&client_id=a%26b%3Dc&state=%C3%A9t%C3%A9%2B1"
    );
}

#[test]
fn try_authorize_url_agrees_with_authorize_url() {
    let client = client().add_scope("read");
    let tried = client.try_authorize_url("code", Some("s"), &[]);
    assert_eq!(tried, Some(client.authorize_url("s".to_string())));
}

#[test]
fn try_authorize_url_takes_extra_params() {
    let tried = client().try_authorize_url("x", None, &[("k", "v")]).unwrap();
    assert_eq!(tried.as_str(), "http://example.com/auth?response_type=x&client_id=aaa&k=v");
}

#[test]
fn new_refuses_a_relative_auth_url() {
    let refused = BasicClient::new("aaa", None, "not a url", "http://example.com/token");
    assert_eq!(refused.err(), Some(url::ParseError::RelativeUrlWithoutBase));
}

#[test]
fn new_refuses_a_bad_token_url() {
    let refused = BasicClient::new("aaa", None, "http://example.com/auth", "http://[::1");
    assert_eq!(refused.err(), Some(url::ParseError::InvalidIpv6Address));
}

#[test]
fn new_reports_the_auth_url_first() {
    let refused = BasicClient::new("aaa", None, "http://", "also not a url");
    assert_eq!(refused.err(), Some(url::ParseError::EmptyHost));
}

#[test]
fn new_normalizes_the_endpoints() {
    let client = BasicClient::new("aaa", None, "HTTP://Example.COM", "http://example.com").unwrap();
    assert_eq!(insecure::authorize_url(&client).as_str(), "http://example.com/?response_type=code&client_id=aaa");
    assert_eq!(client.exchange_code("c".to_string()).url, "http://example.com/");
}

#[test]
fn clone_keeps_the_configuration() {
    let client = client().add_scope("read").add_scope("write").set_redirect_url("http://r");
    let copy = client.clone();
    assert_eq!(copy.authorize_url("s".to_string()), client.authorize_url("s".to_string()));
    assert_eq!(copy.exchange_client_credentials(), client.exchange_client_credentials());
}

#[test]
fn push_param_appends_a_pair() {
    let mut params = vec![("a".to_string(), "b".to_string())];
    push_param(&mut params, "k", "v");
    assert_eq!(
        params,
        vec![("a".to_string(), "b".to_string()), ("k".to_string(), "v".to_string())]
    );
}

#[test]
fn extend_query_appends_to_a_copy() {
    let base = url::Url::parse("http://example.com/").unwrap();
    let mut params = Vec::new();
    push_param(&mut params, "k", "v w");
    push_param(&mut params, "", "");
    assert!(params_fit(&base, &params));
    let extended = extend_query(&base, &params).unwrap();
    assert_eq!(extended.as_str(), "http://example.com/?k=v+w&=");
    assert_eq!(base.as_str(), "http://example.com/");
}

#[test]
fn extend_query_without_params_begins_a_query() {
    let base = url::Url::parse("http://example.com/").unwrap();
    let extended = extend_query(&base, &Vec::new()).unwrap();
    assert_eq!(extended.as_str(), "http://example.com/?");
}
