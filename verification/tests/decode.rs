use oauth2::basic::{BasicErrorResponse, BasicErrorResponseType, BasicToken, BasicTokenType};
use oauth2::json::{
    read_optional_number, read_optional_text, read_required_text, DecodeError, JsonField,
};
use oauth2::Token;
use std::time::Duration;

fn text(s: &str) -> JsonField {
    JsonField::Text(s.to_string())
}

#[test]
fn token_from_fields_takes_all_members() {
    let token: BasicToken = BasicToken::from_fields(
        text("tok"),
        text("Bearer"),
        JsonField::Number(Some(60)),
        text("ref"),
        text("a b"),
    )
    .unwrap();
    assert_eq!(token.access_token(), "tok");
    assert_eq!(*token.token_type(), BasicTokenType::Bearer);
    assert_eq!(token.expires_in(), Some(Duration::from_secs(60)));
    assert_eq!(*token.refresh_token(), Some("ref".to_string()));
    assert_eq!(*token.scopes(), Some(vec!["a".to_string(), "b".to_string()]));
}

#[test]
fn token_from_fields_takes_null_for_absent() {
    let token: BasicToken = BasicToken::from_fields(
        text("tok"),
        text("mac"),
        JsonField::Null,
        JsonField::Null,
        JsonField::Null,
    )
    .unwrap();
    assert_eq!(token.expires_in(), None);
    assert_eq!(*token.refresh_token(), None);
    assert_eq!(*token.scopes(), None);
}

#[test]
fn token_from_fields_reports_the_first_fault() {
    let faulty = BasicToken::<BasicTokenType>::from_fields(
        JsonField::Null,
        JsonField::Absent,
        JsonField::Other,
        JsonField::Other,
        JsonField::Other,
    );
    assert!(matches!(faulty, Err(DecodeError::InvalidType("access_token"))));
    let faulty = BasicToken::<BasicTokenType>::from_fields(
        text("t"),
        JsonField::Absent,
        JsonField::Other,
        JsonField::Other,
        JsonField::Other,
    );
    assert!(matches!(faulty, Err(DecodeError::MissingField("token_type"))));
    let faulty = BasicToken::<BasicTokenType>::from_fields(
        text("t"),
        text("bearer"),
        JsonField::Number(None),
        JsonField::Other,
        JsonField::Other,
    );
    assert!(matches!(faulty, Err(DecodeError::InvalidType("expires_in"))));
    let faulty = BasicToken::<BasicTokenType>::from_fields(
        text("t"),
        text("bearer"),
        JsonField::Absent,
        JsonField::Number(Some(1)),
        JsonField::Other,
    );
    assert!(matches!(faulty, Err(DecodeError::InvalidType("refresh_token"))));
    let faulty = BasicToken::<BasicTokenType>::from_fields(
        text("t"),
        text("bearer"),
        JsonField::Absent,
        JsonField::Absent,
        JsonField::Other,
    );
    assert!(matches!(faulty, Err(DecodeError::InvalidType("scope"))));
}

#[test]
fn token_from_fields_refuses_an_unknown_type() {
    let faulty = BasicToken::<BasicTokenType>::from_fields(
        text("t"),
        text("Basic"),
        JsonField::Absent,
        JsonField::Absent,
        JsonField::Absent,
    );
    match faulty {
        Err(DecodeError::UnknownVariant(key, name)) => {
            assert_eq!(key, "token_type");
            assert_eq!(name, "Basic");
        },
        other => panic!("unexpected outcome: {:?}", other),
    }
}

#[test]
fn token_from_json_reads_an_object() {
    let token: BasicToken = BasicToken::from_json(
        "{\"access_token\": \"t\", \"token_type\": \"BEARER\", \"expires_in\": 0, \"scope\": \"\", \"other\": [1, 2]}",
    )
    .unwrap();
    assert_eq!(token.access_token(), "t");
    assert_eq!(*token.token_type(), BasicTokenType::Bearer);
    assert_eq!(token.expires_in(), Some(Duration::from_secs(0)));
    assert_eq!(*token.scopes(), Some(vec!["".to_string()]));
}

#[test]
fn token_from_json_refuses_numbers_that_are_no_counts() {
    let negative = BasicToken::<BasicTokenType>::from_json(
        "{\"access_token\":\"t\",\"token_type\":\"bearer\",\"expires_in\":-1}",
    );
    assert!(matches!(negative, Err(DecodeError::InvalidType("expires_in"))));
    let fraction = BasicToken::<BasicTokenType>::from_json(
        "{\"access_token\":\"t\",\"token_type\":\"bearer\",\"expires_in\":1.5}",
    );
    assert!(matches!(fraction, Err(DecodeError::InvalidType("expires_in"))));
    let text = BasicToken::<BasicTokenType>::from_json(
        "{\"access_token\":\"t\",\"token_type\":\"bearer\",\"expires_in\":\"60\"}",
    );
    assert!(matches!(text, Err(DecodeError::InvalidType("expires_in"))));
}

#[test]
fn token_from_json_takes_the_largest_count() {
    let token: BasicToken = BasicToken::from_json(
        "{\"access_token\":\"t\",\"token_type\":\"bearer\",\"expires_in\":18446744073709551615}",
    )
    .unwrap();
    assert_eq!(token.expires_in(), Some(Duration::from_secs(u64::MAX)));
}

#[test]
fn token_from_json_finds_no_members_outside_an_object() {
    let array = BasicToken::<BasicTokenType>::from_json("[\"t\", \"bearer\"]");
    assert!(matches!(array, Err(DecodeError::MissingField("access_token"))));
    let null = BasicToken::<BasicTokenType>::from_json("null");
    assert!(matches!(null, Err(DecodeError::MissingField("access_token"))));
}

#[test]
fn token_from_json_refuses_what_is_not_json() {
    let broken = BasicToken::<BasicTokenType>::from_json("{\"access_token\":");
    match broken {
        Err(DecodeError::Syntax(e)) => {
            assert!(e.is_eof());
            assert_eq!(e.line(), 1);
        },
        other => panic!("unexpected outcome: {:?}", other),
    }
}

#[test]
fn tokens_compare_by_their_members() {
    let a: BasicToken =
        BasicToken::from_json("{\"access_token\":\"t\",\"token_type\":\"bearer\"}").unwrap();
    let b: BasicToken =
        BasicToken::from_json("{\"token_type\":\"Bearer\",\"access_token\":\"t\"}").unwrap();
    let c: BasicToken =
        BasicToken::from_json("{\"access_token\":\"u\",\"token_type\":\"bearer\"}").unwrap();
    assert_eq!(a, b);
    assert_ne!(a, c);
}

#[test]
fn error_response_from_fields() {
    let refusal =
        BasicErrorResponse::from_fields(text("invalid_scope"), text("too much"), JsonField::Absent)
            .unwrap();
    assert_eq!(*refusal.error(), BasicErrorResponseType::InvalidScope);
    assert_eq!(*refusal.error_description(), Some("too much".to_string()));
    assert_eq!(*refusal.error_uri(), None);
    assert_eq!(refusal.to_string(), "invalid_scope: too much");
}

#[test]
fn error_response_with_address_only() {
    let refusal =
        BasicErrorResponse::from_fields(text("invalid_request"), JsonField::Null, text("http://e"))
            .unwrap();
    assert_eq!(refusal.to_string(), "invalid_request / See http://e");
}

#[test]
fn error_response_reports_the_first_fault() {
    let faulty =
        BasicErrorResponse::from_fields(JsonField::Absent, JsonField::Other, JsonField::Other);
    assert!(matches!(faulty, Err(DecodeError::MissingField("error"))));
    let faulty =
        BasicErrorResponse::from_fields(JsonField::Number(Some(1)), text("d"), JsonField::Other);
    assert!(matches!(faulty, Err(DecodeError::InvalidType("error"))));
    let faulty =
        BasicErrorResponse::from_fields(text("invalid_grant"), JsonField::Other, JsonField::Other);
    assert!(matches!(faulty, Err(DecodeError::InvalidType("error_description"))));
    let faulty =
        BasicErrorResponse::from_fields(text("invalid_grant"), text("d"), JsonField::Other);
    assert!(matches!(faulty, Err(DecodeError::InvalidType("error_uri"))));
}

#[test]
fn error_response_from_json() {
    let refusal = BasicErrorResponse::from_json(
        "{\"error\":\"unsupported_grant_type\",\"error_description\":null}",
    )
    .unwrap();
    assert_eq!(*refusal.error(), BasicErrorResponseType::UnsupportedGrantType);
    assert_eq!(refusal.to_string(), "unsupported_grant_type");
    let same = BasicErrorResponse::from_json("{\"error\":\"unsupported_grant_type\"}").unwrap();
    assert_eq!(refusal, same);
}

#[test]
fn required_text_must_be_there() {
    assert_eq!(read_required_text(text("v"), "k").unwrap(), "v");
    assert!(matches!(read_required_text(JsonField::Absent, "k"), Err(DecodeError::MissingField("k"))));
    assert!(matches!(read_required_text(JsonField::Null, "k"), Err(DecodeError::InvalidType("k"))));
}

#[test]
fn optional_text_may_be_absent() {
    assert_eq!(read_optional_text(text("v"), "k").unwrap(), Some("v".to_string()));
    assert_eq!(read_optional_text(JsonField::Absent, "k").unwrap(), None);
    assert_eq!(read_optional_text(JsonField::Null, "k").unwrap(), None);
    assert!(matches!(
        read_optional_text(JsonField::Number(Some(1)), "k"),
        Err(DecodeError::InvalidType("k"))
    ));
}

#[test]
fn optional_number_may_be_absent() {
    assert_eq!(read_optional_number(JsonField::Number(Some(7)), "k").unwrap(), Some(7));
    assert_eq!(read_optional_number(JsonField::Absent, "k").unwrap(), None);
    assert_eq!(read_optional_number(JsonField::Null, "k").unwrap(), None);
    assert!(matches!(
        read_optional_number(JsonField::Number(None), "k"),
        Err(DecodeError::InvalidType("k"))
    ));
    assert!(matches!(read_optional_number(text("7"), "k"), Err(DecodeError::InvalidType("k"))));
}
