use dots_client::outcome::{failed_nodes, gather, NodeFailure};

#[test]
fn gather_of_successes_gives_all_values_in_order() {
    let results: Vec<Result<u32, String>> = vec![Ok(10), Ok(20), Ok(30)];
    assert_eq!(gather(results), Ok(vec![10, 20, 30]));
}

#[test]
fn gather_of_nothing_is_an_empty_success() {
    let results: Vec<Result<u32, String>> = vec![];
    assert_eq!(gather(results), Ok(vec![]));
}

#[test]
fn gather_names_the_one_failure() {
    let results: Vec<Result<u32, String>> = vec![Ok(10), Err("down".to_string()), Ok(30)];
    assert_eq!(
        gather(results),
        Err(vec![NodeFailure { node: 1, error: "down".to_string() }])
    );
}

#[test]
fn gather_names_every_failure_in_order() {
    let results: Vec<Result<u32, String>> =
        vec![Err("a".to_string()), Ok(1), Err("b".to_string()), Ok(2), Err("c".to_string())];
    assert_eq!(
        gather(results),
        Err(vec![
            NodeFailure { node: 0, error: "a".to_string() },
            NodeFailure { node: 2, error: "b".to_string() },
            NodeFailure { node: 4, error: "c".to_string() },
        ])
    );
}

#[test]
fn gather_of_failures_alone_names_them_all() {
    let results: Vec<Result<u32, u8>> = vec![Err(7), Err(8)];
    assert_eq!(
        gather(results),
        Err(vec![NodeFailure { node: 0, error: 7 }, NodeFailure { node: 1, error: 8 }])
    );
}

#[test]
fn gather_fails_on_a_failure_at_the_end() {
    let results: Vec<Result<u32, u8>> = vec![Ok(1), Ok(2), Err(9)];
    assert_eq!(gather(results), Err(vec![NodeFailure { node: 2, error: 9 }]));
}

#[test]
fn gather_of_one_success() {
    let results: Vec<Result<u32, u8>> = vec![Ok(1)];
    assert_eq!(gather(results), Ok(vec![1]));
}

#[test]
fn gather_keeps_the_order_of_many_results() {
    let results: Vec<Result<usize, usize>> =
        (0..1000).map(|node| if node % 7 == 3 { Err(node) } else { Ok(node) }).collect();
    let failed = gather(results).unwrap_err();
    let expected: Vec<NodeFailure<usize>> = (0..1000)
        .filter(|node| node % 7 == 3)
        .map(|node| NodeFailure { node, error: node })
        .collect();
    assert_eq!(failed, expected);
}

#[test]
fn failed_nodes_are_the_nodes_of_the_failures() {
    let failed = vec![
        NodeFailure { node: 1, error: "a" },
        NodeFailure { node: 4, error: "b" },
        NodeFailure { node: 9, error: "c" },
    ];
    assert_eq!(failed_nodes(&failed), vec![1, 4, 9]);
}

#[test]
fn failed_nodes_of_no_failure_are_none() {
    let failed: Vec<NodeFailure<u8>> = vec![];
    assert!(failed_nodes(&failed).is_empty());
}
