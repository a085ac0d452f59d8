use oauth2::basic::{BasicClient, BasicErrorResponseType, BasicTokenType};
use oauth2::exchange::{read_response, ResponseKind};
use oauth2::{
    AuthType, DecodeError, ErrorResponseType, RequestTokenError, RequestTokenResponse, Token,
    TransportError,
};
use std::time::Duration;

fn client() -> BasicClient {
    BasicClient::new("aaa", Some("bbb"), "http://example.com/auth", "http://example.com/token")
        .unwrap()
}

fn response(status: u32, content_type: Option<&str>, body: &[u8]) -> RequestTokenResponse {
    RequestTokenResponse {
        http_status: status,
        content_type: content_type.map(|s| s.to_string()),
        response_body: body.to_vec(),
    }
}

#[test]
fn exchange_code_uses_basic_auth_by_default() {
    let request = client().exchange_code("ccc".to_string());
    assert_eq!(request.url, "http://example.com/token");
    assert_eq!(request.username, Some("aaa".to_string()));
    assert_eq!(request.password, Some("bbb".to_string()));
    assert_eq!(request.headers, vec!["Accept: application/json".to_string()]);
    assert_eq!(request.body, "grant_type=authorization_code&code=ccc");
}

#[test]
fn exchange_code_in_request_body() {
    let request = client().set_auth_type(AuthType::RequestBody).exchange_code("ccc".to_string());
    assert_eq!(request.username, None);
    assert_eq!(request.password, None);
    assert_eq!(
        request.body,
        "grant_type=authorization_code&code=ccc&client_id=aaa&client_secret=bbb"
    );
}

#[test]
fn exchange_code_of_a_public_client() {
    let public = BasicClient::new("aaa", None, "http://a/", "http://t/").unwrap();
    let basic = public.clone().exchange_code("ccc".to_string());
    assert_eq!(basic.username, Some("aaa".to_string()));
    assert_eq!(basic.password, None);
    let body = public.set_auth_type(AuthType::RequestBody).exchange_code("ccc".to_string());
    assert_eq!(body.body, "grant_type=authorization_code&code=ccc&client_id=aaa");
}

#[test]
fn token_request_has_redirect_uri_only_when_set() {
    let without = client().exchange_code("ccc".to_string());
    assert!(!without.body.contains("redirect_uri"));
    let with = client().set_redirect_url("http://redirect/here");
    assert_eq!(
        with.exchange_code("ccc".to_string()).body,
        "grant_type=authorization_code&code=ccc&redirect_uri=http%3A%2F%2Fredirect%2Fhere"
    );
    assert_eq!(
        with.exchange_client_credentials().body,
        "grant_type=client_credentials&redirect_uri=http%3A%2F%2Fredirect%2Fhere"
    );
    assert_eq!(
        with.clone().set_auth_type(AuthType::RequestBody).exchange_refresh_token("r").body,
        "grant_type=refresh_token&refresh_token=r&client_id=aaa&client_secret=bbb&redirect_uri=http%3A%2F%2Fredirect%2Fhere"
    );
}

#[test]
fn exchange_password_sends_name_and_password() {
    let request = client().exchange_password("user", "pass word");
    assert_eq!(request.body, "grant_type=password&username=user&password=pass+word");
}

#[test]
fn exchange_refresh_token_sends_the_refresh_token() {
    let request = client().exchange_refresh_token("r/t");
    assert_eq!(request.body, "grant_type=refresh_token&refresh_token=r%2Ft");
}

#[test]
fn exchange_client_credentials_without_scopes_has_no_scope() {
    let request = client().exchange_client_credentials();
    assert_eq!(request.body, "grant_type=client_credentials");
}

#[test]
fn exchange_client_credentials_joins_scopes() {
    let request = client().add_scope("a").add_scope("b").exchange_client_credentials();
    assert_eq!(request.body, "grant_type=client_credentials&scope=a+b");
}

#[test]
fn token_request_takes_any_grant() {
    let params = vec![("grant_type".to_string(), "urn:x".to_string())];
    let request = client().set_auth_type(AuthType::RequestBody).token_request(params);
    assert_eq!(request.body, "grant_type=urn%3Ax&client_id=aaa&client_secret=bbb");
}

#[test]
fn token_response_is_decoded() {
    let body = b"{\"access_token\":\"12/34\",\"token_type\":\"bearer\",\"expires_in\":3600,\"refresh_token\":\"rrr\",\"scope\":\"read write\"}";
    let token = client().request_token(Ok(response(200, Some("application/json"), body))).unwrap();
    assert_eq!(token.access_token(), "12/34");
    assert_eq!(*token.token_type(), BasicTokenType::Bearer);
    assert_eq!(token.expires_in(), Some(Duration::from_secs(3600)));
    assert_eq!(*token.refresh_token(), Some("rrr".to_string()));
    assert_eq!(*token.scopes(), Some(vec!["read".to_string(), "write".to_string()]));
}

#[test]
fn token_response_without_optional_members() {
    let body = b"{\"access_token\":\"t\",\"token_type\":\"MAC\"}";
    let token = client().request_token(Ok(response(200, None, body))).unwrap();
    assert_eq!(token.access_token(), "t");
    assert_eq!(*token.token_type(), BasicTokenType::Mac);
    assert_eq!(token.expires_in(), None);
    assert_eq!(*token.refresh_token(), None);
    assert_eq!(*token.scopes(), None);
}

#[test]
fn content_type_may_have_any_case_and_a_parameter() {
    let body = b"{\"access_token\":\"t\",\"token_type\":\"bearer\"}";
    let token =
        client().request_token(Ok(response(200, Some("Application/JSON; charset=utf-8"), body)));
    assert!(token.is_ok());
}

#[test]
fn html_content_type_is_refused() {
    let body = b"{\"access_token\":\"t\",\"token_type\":\"bearer\"}";
    let failed = client().request_token(Ok(response(200, Some("text/html"), body)));
    match failed {
        Err(RequestTokenError::Other(text)) => assert_eq!(
            text,
            "Unexpected response Content-Type: `text/html`, should be `application/json`"
        ),
        other => panic!("unexpected outcome: {:?}", other),
    }
}

#[test]
fn content_type_complaint_shows_the_header_as_sent() {
    let failed = client().request_token(Ok(response(200, Some("Text/HTML"), b"{}")));
    match failed {
        Err(RequestTokenError::Other(text)) => assert_eq!(
            text,
            "Unexpected response Content-Type: `Text/HTML`, should be `application/json`"
        ),
        other => panic!("unexpected outcome: {:?}", other),
    }
}

#[test]
fn invalid_grant_is_a_server_response() {
    let failed = client().request_token(Ok(response(400, None, b"{\"error\":\"invalid_grant\"}")));
    match failed {
        Err(RequestTokenError::ServerResponse(refusal)) => {
            assert_eq!(*refusal.error(), BasicErrorResponseType::InvalidGrant);
            assert_eq!(refusal.error().to_string(), "invalid_grant");
            assert_eq!(refusal.error().to_str(), "invalid_grant");
            assert_eq!(*refusal.error_description(), None);
            assert_eq!(*refusal.error_uri(), None);
            assert_eq!(refusal.to_string(), "invalid_grant");
        },
        other => panic!("unexpected outcome: {:?}", other),
    }
}

#[test]
fn refusal_is_read_whatever_its_content_type() {
    let body = b"{\"error\":\"invalid_client\",\"error_description\":\"who?\",\"error_uri\":\"http://e\"}";
    let failed = client().request_token(Ok(response(401, Some("text/html"), body)));
    match failed {
        Err(RequestTokenError::ServerResponse(refusal)) => {
            assert_eq!(*refusal.error(), BasicErrorResponseType::InvalidClient);
            assert_eq!(*refusal.error_description(), Some("who?".to_string()));
            assert_eq!(*refusal.error_uri(), Some("http://e".to_string()));
            assert_eq!(refusal.to_string(), "invalid_client: who? / See http://e");
        },
        other => panic!("unexpected outcome: {:?}", other),
    }
}

#[test]
fn empty_body_on_success_is_refused() {
    let failed = client().request_token(Ok(response(200, Some("application/json"), b"")));
    match failed {
        Err(RequestTokenError::Other(text)) => {
            assert_eq!(text, "Server returned empty response body")
        },
        other => panic!("unexpected outcome: {:?}", other),
    }
}

#[test]
fn empty_body_on_refusal_is_refused() {
    let failed = client().request_token(Ok(response(500, None, b"")));
    match failed {
        Err(RequestTokenError::Other(text)) => {
            assert_eq!(text, "Server returned empty error response")
        },
        other => panic!("unexpected outcome: {:?}", other),
    }
}

#[test]
fn body_that_is_not_utf8_is_refused() {
    let failed = client().request_token(Ok(response(200, None, &[b'{', 0xff, b'}'])));
    match failed {
        Err(RequestTokenError::Other(text)) => assert_eq!(
            text,
            "Couldn't parse response as UTF-8: invalid utf-8 sequence of 1 bytes from index 1"
        ),
        other => panic!("unexpected outcome: {:?}", other),
    }
}

#[test]
fn refusal_that_is_not_utf8_is_read_with_replacements() {
    let kind = read_response(response(400, None, &[b'a', 0xff, b'b']));
    assert_eq!(kind, ResponseKind::Refusal("a\u{fffd}b".to_string()));
}

#[test]
fn refusal_that_is_not_json_is_a_parse_error() {
    let failed = client().request_token(Ok(response(502, None, b"<html>Bad Gateway</html>")));
    assert!(matches!(failed, Err(RequestTokenError::Parse(DecodeError::Syntax(_)))));
}

#[test]
fn refusal_with_unknown_code_is_a_parse_error() {
    let failed = client().request_token(Ok(response(400, None, b"{\"error\":\"Invalid_Grant\"}")));
    match failed {
        Err(RequestTokenError::Parse(DecodeError::UnknownVariant(key, name))) => {
            assert_eq!(key, "error");
            assert_eq!(name, "Invalid_Grant");
        },
        other => panic!("unexpected outcome: {:?}", other),
    }
}

#[test]
fn token_that_is_not_json_is_a_parse_error() {
    let failed = client().request_token(Ok(response(200, None, b"access_token=t")));
    assert!(matches!(failed, Err(RequestTokenError::Parse(DecodeError::Syntax(_)))));
}

#[test]
fn token_without_access_token_is_a_parse_error() {
    let failed = client().request_token(Ok(response(200, None, b"{\"token_type\":\"bearer\"}")));
    assert!(matches!(
        failed,
        Err(RequestTokenError::Parse(DecodeError::MissingField("access_token")))
    ));
}

#[test]
fn transport_failure_is_passed_on() {
    let failure = TransportError {
        code: 7,
        description: "Couldn't connect to server".to_string(),
        extra_description: None,
    };
    let failed = client().request_token(Err(failure.clone()));
    match failed {
        Err(RequestTokenError::Request(passed)) => assert_eq!(passed, failure),
        other => panic!("unexpected outcome: {:?}", other),
    }
}

#[test]
fn read_response_tells_grant_from_refusal() {
    assert_eq!(
        read_response(response(200, Some("application/json"), b"{}")),
        ResponseKind::Grant("{}".to_string())
    );
    assert_eq!(
        read_response(response(201, Some("application/json"), b"{}")),
        ResponseKind::Refusal("{}".to_string())
    );
    assert_eq!(
        read_response(response(200, Some("application/jso"), b"{}")),
        ResponseKind::Broken(
            "Unexpected response Content-Type: `application/jso`, should be `application/json`"
                .to_string()
        )
    );
}
