use graphql_relay::global_id::type_tag;
use graphql_relay::{DecodeError, GlobalId, NamedNode, ScalarError, ScalarValue};

const USER_KEY: u128 = 0x92ba0c2d_4b4e_4e29_91dd_8f96a078c3ff;
const USER_ID: &str = "VXNlcjo5MmJhMGMyZC00YjRlLTRlMjktOTFkZC04Zjk2YTA3OGMzZmY=";

#[derive(Debug)]
struct User;

impl NamedNode for User {
    const TYPE_NAME: &'static str = "User";
}

#[derive(Debug)]
struct Tenant;

impl NamedNode for Tenant {
    const TYPE_NAME: &'static str = "Tenant";
}

#[test]
fn handle_converts_from_and_to_its_key() {
    let handle: GlobalId<User> = GlobalId::from(USER_KEY);
    let by_value: u128 = handle.into();
    let by_reference: u128 = (&handle).into();
    assert_eq!(by_value, USER_KEY);
    assert_eq!(by_reference, USER_KEY);
}

#[test]
fn handles_are_equal_by_key() {
    let a: GlobalId<User> = GlobalId::from(1);
    let b: GlobalId<User> = GlobalId::from(1);
    let c: GlobalId<User> = GlobalId::from(2);
    assert_eq!(a, b);
    assert_ne!(a, c);
    let copy = a;
    assert_eq!(copy, a.clone());
}

#[test]
fn handle_gives_the_identifier_of_its_type() {
    let user: GlobalId<User> = GlobalId::from(USER_KEY);
    let tenant: GlobalId<Tenant> = GlobalId::from(USER_KEY);
    assert_eq!(user.to_string(), USER_ID);
    assert_eq!(tenant.to_string(), graphql_relay::to_global_id("Tenant", USER_KEY));
    assert_ne!(user.to_string(), tenant.to_string());
}

#[test]
fn handle_parses_from_identifier() {
    let parsed: Result<GlobalId<User>, DecodeError> = GlobalId::parse_str(USER_ID);
    assert_eq!(parsed, Ok(GlobalId::from(USER_KEY)));
    let by_trait: Result<GlobalId<User>, DecodeError> = USER_ID.parse();
    assert_eq!(by_trait, Ok(GlobalId::from(USER_KEY)));
}

#[test]
fn parsing_does_not_compare_the_tag() {
    let id = graphql_relay::to_global_id("Tenant", 9);
    let parsed: Result<GlobalId<User>, DecodeError> = GlobalId::parse_str(&id);
    assert_eq!(parsed, Ok(GlobalId::from(9)));
}

#[test]
fn parsing_reports_decode_errors() {
    let malformed: Result<GlobalId<User>, DecodeError> = GlobalId::parse_str("???");
    assert_eq!(malformed, Err(DecodeError::Malformed));
    let invalid: Result<GlobalId<User>, DecodeError> = "VXNlcjpub3QtYS1rZXk=".parse();
    assert_eq!(invalid, Err(DecodeError::InvalidKey));
}

#[test]
fn scalar_text_parses_and_other_is_refused() {
    let parsed: Result<GlobalId<User>, ScalarError> =
        GlobalId::parse(ScalarValue::Text(USER_ID.to_string()));
    assert_eq!(parsed, Ok(GlobalId::from(USER_KEY)));
    let bad: Result<GlobalId<User>, ScalarError> =
        GlobalId::parse(ScalarValue::Text("???".to_string()));
    assert_eq!(bad, Err(ScalarError::Invalid(DecodeError::Malformed)));
    let other: Result<GlobalId<User>, ScalarError> = GlobalId::parse(ScalarValue::Other);
    assert_eq!(other, Err(ScalarError::ExpectedText));
}

#[test]
fn handle_gives_its_scalar() {
    let user: GlobalId<User> = GlobalId::from(USER_KEY);
    assert_eq!(user.to_value(), ScalarValue::Text(USER_ID.to_string()));
}

#[test]
fn type_tag_defaults_to_the_declared_name() {
    assert_eq!(type_tag("User", None), "User");
    assert_eq!(type_tag("UserRecord", Some("User".to_string())), "User");
}

#[test]
fn handles_are_ordered_by_key() {
    let low: GlobalId<User> = GlobalId::from(1);
    let high: GlobalId<User> = GlobalId::from(2);
    assert!(low < high);
    assert!(high > low);
    assert!(low <= low);
    assert_eq!(low.partial_cmp(&high), Some(std::cmp::Ordering::Less));
    assert_eq!(high.partial_cmp(&low), Some(std::cmp::Ordering::Greater));
    assert_eq!(low.partial_cmp(&low), Some(std::cmp::Ordering::Equal));
}
