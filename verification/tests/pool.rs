use dots_client::outcome::NodeFailure;
use dots_client::pool::{connect_all, ConnectError, ConnectFailure, ConnectFailureKind};
use dots_client::registry::NodeRegistry;

fn registry_of(list: &[&str]) -> NodeRegistry {
    NodeRegistry::new(list.iter().map(|name| name.to_string()).collect())
}

fn failure(kind: ConnectFailureKind, detail: &str) -> ConnectFailure {
    ConnectFailure { kind, detail: detail.to_string() }
}

#[test]
fn connect_all_gives_one_connection_per_node_in_registry_order() {
    let nodes = registry_of(&["A", "B", "C"]);
    let attempts: Vec<Result<&str, ConnectFailure>> = vec![Ok("to A"), Ok("to B"), Ok("to C")];
    assert_eq!(connect_all(&nodes, attempts), Ok(vec!["to A", "to B", "to C"]));
}

#[test]
fn connect_all_of_one_node() {
    let nodes = registry_of(&["A"]);
    let attempts: Vec<Result<u8, ConnectFailure>> = vec![Ok(1)];
    assert_eq!(connect_all(&nodes, attempts), Ok(vec![1]));
}

#[test]
fn connect_all_of_an_empty_registry_is_an_empty_pool() {
    let nodes = registry_of(&[]);
    let attempts: Vec<Result<u8, ConnectFailure>> = vec![];
    assert_eq!(connect_all(&nodes, attempts), Ok(vec![]));
}

#[test]
fn connect_all_fails_when_one_node_is_unreachable() {
    let nodes = registry_of(&["A", "B"]);
    let attempts: Vec<Result<u8, ConnectFailure>> =
        vec![Ok(1), Err(failure(ConnectFailureKind::Unreachable, "no route"))];
    assert_eq!(
        connect_all(&nodes, attempts),
        Err(ConnectError {
            address: "B".to_string(),
            failures: vec![NodeFailure {
                node: 1,
                error: failure(ConnectFailureKind::Unreachable, "no route"),
            }],
        })
    );
}

#[test]
fn connect_all_names_the_first_failed_node_and_lists_them_all() {
    let nodes = registry_of(&["A", "B", "C", "D"]);
    let attempts: Vec<Result<u8, ConnectFailure>> = vec![
        Ok(1),
        Err(failure(ConnectFailureKind::Refused, "refused")),
        Ok(3),
        Err(failure(ConnectFailureKind::Timeout, "too slow")),
    ];
    let error = connect_all(&nodes, attempts).unwrap_err();
    assert_eq!(error.address, "B");
    assert_eq!(
        error.failures,
        vec![
            NodeFailure { node: 1, error: failure(ConnectFailureKind::Refused, "refused") },
            NodeFailure { node: 3, error: failure(ConnectFailureKind::Timeout, "too slow") },
        ]
    );
}

#[test]
fn connect_all_fails_when_the_first_node_fails() {
    let nodes = registry_of(&["A", "B"]);
    let attempts: Vec<Result<u8, ConnectFailure>> =
        vec![Err(failure(ConnectFailureKind::Handshake, "bad certificate")), Ok(2)];
    let error = connect_all(&nodes, attempts).unwrap_err();
    assert_eq!(error.address, "A");
    assert_eq!(error.failures.len(), 1);
    assert_eq!(error.failures[0].node, 0);
    assert_eq!(error.failures[0].error.kind, ConnectFailureKind::Handshake);
    assert_eq!(error.failures[0].error.detail, "bad certificate");
}

#[test]
fn connect_all_fails_when_every_node_fails() {
    let nodes = registry_of(&["A", "B"]);
    let attempts: Vec<Result<u8, ConnectFailure>> = vec![
        Err(failure(ConnectFailureKind::Unreachable, "a")),
        Err(failure(ConnectFailureKind::Unreachable, "b")),
    ];
    let error = connect_all(&nodes, attempts).unwrap_err();
    assert_eq!(error.address, "A");
    assert_eq!(error.failures.len(), 2);
    assert_eq!(error.failures[1].node, 1);
}

#[test]
fn connect_all_releases_the_connections_beside_a_failure() {
    let nodes = registry_of(&["A", "B", "C"]);
    let held = std::rc::Rc::new(());
    let attempts: Vec<Result<std::rc::Rc<()>, ConnectFailure>> = vec![
        Ok(held.clone()),
        Err(failure(ConnectFailureKind::Unreachable, "gone")),
        Ok(held.clone()),
    ];
    assert_eq!(std::rc::Rc::strong_count(&held), 3);
    let connected = connect_all(&nodes, attempts);
    assert!(connected.is_err());
    assert_eq!(std::rc::Rc::strong_count(&held), 1);
}
