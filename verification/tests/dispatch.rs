use graphql_relay::{
    conclude, fetch_node, fetch_nodes, fetch_nodes_detailed, optional_nodes, route, to_global_id,
    DecodeError, DispatchError, Registry, Route,
};
use std::cell::RefCell;

const USER_KEY: u128 = 0x92ba0c2d_4b4e_4e29_91dd_8f96a078c3ff;
const TENANT_KEY: u128 = 0x4e02ec03_f82f_46da_8572_39975bf97d9d;

#[derive(Debug, Clone, PartialEq, Eq)]
enum Node {
    User { key: u128, name: String },
    Tenant { key: u128, name: String },
}

fn registry() -> Registry {
    Registry::new(vec!["User".to_string(), "Tenant".to_string()]).unwrap()
}

fn fetch(slot: usize, key: u128) -> Result<Option<Node>, String> {
    match slot {
        0 => Ok(Some(Node::User { key, name: "Oscar".to_string() })),
        _ => Ok(Some(Node::Tenant { key, name: "My Company".to_string() })),
    }
}

#[test]
fn route_gives_slot_and_key() {
    let registry = registry();
    let user = to_global_id("User", USER_KEY);
    let tenant = to_global_id("Tenant", TENANT_KEY);
    assert_eq!(route::<String>(&registry, &user), Ok(Route { slot: 0, key: USER_KEY }));
    assert_eq!(route::<String>(&registry, &tenant), Ok(Route { slot: 1, key: TENANT_KEY }));
}

#[test]
fn same_key_under_two_tags_routes_by_tag() {
    let registry = registry();
    let user = to_global_id("User", 7);
    let tenant = to_global_id("Tenant", 7);
    assert_eq!(route::<String>(&registry, &user), Ok(Route { slot: 0, key: 7 }));
    assert_eq!(route::<String>(&registry, &tenant), Ok(Route { slot: 1, key: 7 }));
}

#[test]
fn route_of_unknown_tag_is_unknown_type() {
    let registry = registry();
    let id = to_global_id("Order", USER_KEY);
    assert_eq!(route::<String>(&registry, &id), Err(DispatchError::UnknownType));
}

#[test]
fn route_of_bad_identifier_is_invalid_identifier() {
    let registry = registry();
    assert_eq!(
        route::<String>(&registry, "***"),
        Err(DispatchError::InvalidIdentifier(DecodeError::Malformed))
    );
    assert_eq!(
        route::<String>(&registry, "VXNlcjpub3QtYS1rZXk="),
        Err(DispatchError::InvalidIdentifier(DecodeError::InvalidKey))
    );
}

#[test]
fn conclude_tells_missing_from_failed() {
    assert_eq!(conclude::<u8, String>(Ok(Some(3))), Ok(3));
    assert_eq!(conclude::<u8, String>(Ok(None)), Err(DispatchError::NotFound));
    assert_eq!(
        conclude::<u8, String>(Err("storage down".to_string())),
        Err(DispatchError::FetchFailed("storage down".to_string()))
    );
}

#[test]
fn user_identifier_fetches_a_user() {
    let registry = registry();
    let calls: RefCell<Vec<(usize, u128)>> = RefCell::new(Vec::new());
    let recording = |slot: usize, key: u128| {
        calls.borrow_mut().push((slot, key));
        fetch(slot, key)
    };
    let id = to_global_id("User", USER_KEY);
    assert_eq!(id, "VXNlcjo5MmJhMGMyZC00YjRlLTRlMjktOTFkZC04Zjk2YTA3OGMzZmY=");
    let node = fetch_node(&registry, &recording, &id);
    assert_eq!(node, Ok(Node::User { key: USER_KEY, name: "Oscar".to_string() }));
    assert_eq!(*calls.borrow(), vec![(0usize, USER_KEY)]);
}

#[test]
fn tenant_identifier_fetches_a_tenant() {
    let registry = registry();
    let id = to_global_id("Tenant", USER_KEY);
    let node = fetch_node(&registry, &fetch, &id);
    assert_eq!(node, Ok(Node::Tenant { key: USER_KEY, name: "My Company".to_string() }));
}

#[test]
fn no_record_is_not_found() {
    let registry = registry();
    let missing = |_slot: usize, _key: u128| -> Result<Option<Node>, String> { Ok(None) };
    let id = to_global_id("User", USER_KEY);
    assert_eq!(fetch_node(&registry, &missing, &id), Err(DispatchError::NotFound));
}

#[test]
fn failed_fetch_is_fetch_failed() {
    let registry = registry();
    let failing =
        |_slot: usize, _key: u128| -> Result<Option<Node>, String> { Err("denied".to_string()) };
    let id = to_global_id("User", USER_KEY);
    assert_eq!(
        fetch_node(&registry, &failing, &id),
        Err(DispatchError::FetchFailed("denied".to_string()))
    );
}

#[test]
fn unknown_type_is_not_fetched() {
    let registry = registry();
    let calls: RefCell<usize> = RefCell::new(0);
    let counting = |slot: usize, key: u128| {
        *calls.borrow_mut() += 1;
        fetch(slot, key)
    };
    let id = to_global_id("Order", USER_KEY);
    assert_eq!(fetch_node(&registry, &counting, &id), Err(DispatchError::UnknownType));
    assert_eq!(
        fetch_node(&registry, &counting, "not an identifier"),
        Err(DispatchError::InvalidIdentifier(DecodeError::Malformed))
    );
    assert_eq!(*calls.borrow(), 0);
}

#[test]
fn batch_keeps_positions() {
    let registry = registry();
    let ids = vec![
        to_global_id("User", USER_KEY),
        "%%% malformed %%%".to_string(),
        to_global_id("Tenant", TENANT_KEY),
    ];
    let nodes = fetch_nodes(&registry, &fetch, &ids);
    assert_eq!(
        nodes,
        vec![
            Some(Node::User { key: USER_KEY, name: "Oscar".to_string() }),
            None,
            Some(Node::Tenant { key: TENANT_KEY, name: "My Company".to_string() }),
        ]
    );
}

#[test]
fn batch_turns_every_failure_into_none() {
    let registry = registry();
    let picky = |slot: usize, key: u128| -> Result<Option<Node>, String> {
        if key == 1 {
            Ok(None)
        } else if key == 2 {
            Err("storage down".to_string())
        } else {
            fetch(slot, key)
        }
    };
    let ids = vec![
        to_global_id("User", 1),
        to_global_id("User", 2),
        to_global_id("Order", 3),
        "VXNlcjpub3QtYS1rZXk=".to_string(),
        to_global_id("Tenant", 3),
    ];
    let detailed = fetch_nodes_detailed(&registry, &picky, &ids);
    assert_eq!(
        detailed,
        vec![
            Err(DispatchError::NotFound),
            Err(DispatchError::FetchFailed("storage down".to_string())),
            Err(DispatchError::UnknownType),
            Err(DispatchError::InvalidIdentifier(DecodeError::InvalidKey)),
            Ok(Node::Tenant { key: 3, name: "My Company".to_string() }),
        ]
    );
    let nodes = fetch_nodes(&registry, &picky, &ids);
    assert_eq!(
        nodes,
        vec![None, None, None, None, Some(Node::Tenant { key: 3, name: "My Company".to_string() })]
    );
}

#[test]
fn empty_batch_is_empty() {
    let registry = registry();
    let nodes = fetch_nodes(&registry, &fetch, &Vec::new());
    assert_eq!(nodes, Vec::new());
}

#[test]
fn optional_nodes_keeps_order() {
    let results: Vec<Result<u8, &str>> = vec![Ok(1), Err("x"), Ok(3), Ok(4), Err("y")];
    assert_eq!(optional_nodes(results), vec![Some(1), None, Some(3), Some(4), None]);
    assert_eq!(optional_nodes(Vec::<Result<u8, ()>>::new()), Vec::new());
}
