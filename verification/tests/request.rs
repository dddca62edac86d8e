use dots_client::correlation::{CorrelationId, UuidPb};
use dots_client::request::ExecutionRequest;

fn sample(id: u128) -> ExecutionRequest {
    ExecutionRequest::new(
        "mpspdz".to_string(),
        0,
        CorrelationId::from_u128(id),
        "".to_string(),
        "unused".to_string(),
        vec!["input".to_string()],
        vec!["output".to_string()],
        vec![],
    )
}

#[test]
fn new_request_holds_what_it_was_given() {
    let request = ExecutionRequest::new(
        "app".to_string(),
        7,
        CorrelationId::from_u128(0x0000000000000003_0000000000000004),
        "client".to_string(),
        "run".to_string(),
        vec!["in1".to_string(), "in2".to_string()],
        vec!["out".to_string()],
        vec!["--fast".to_string(), "3".to_string()],
    );
    assert_eq!(request.app_name, "app");
    assert_eq!(request.app_uid, 7);
    assert_eq!(request.correlation_id, UuidPb { hi: 3, lo: 4 });
    assert_eq!(request.client_id, "client");
    assert_eq!(request.func_name, "run");
    assert_eq!(request.in_files, vec!["in1".to_string(), "in2".to_string()]);
    assert_eq!(request.out_files, vec!["out".to_string()]);
    assert_eq!(request.args, vec!["--fast".to_string(), "3".to_string()]);
}

#[test]
fn new_request_may_have_an_empty_client() {
    let request = sample(1);
    assert_eq!(request.client_id, "");
    assert!(request.args.is_empty());
}

#[test]
fn clone_says_the_same() {
    let request = sample(0xa1a2a3a4b1b2c1c2d1d2d3d4d5d6d7d8);
    let copy = request.clone();
    assert_eq!(copy, request);
    assert_eq!(copy.correlation_id, UuidPb { hi: 0xa1a2a3a4b1b2c1c2, lo: 0xd1d2d3d4d5d6d7d8 });
}

#[test]
fn replicate_makes_one_message_per_node() {
    let request = sample(5);
    let messages = request.replicate(4);
    assert_eq!(messages.len(), 4);
    for message in &messages {
        assert_eq!(message, &request);
    }
}

#[test]
fn replicate_stamps_every_message_with_the_same_identifier() {
    let request = sample(0x0000000000000009_0000000000000008);
    let messages = request.replicate(3);
    for message in &messages {
        assert_eq!(message.correlation_id, UuidPb { hi: 9, lo: 8 });
    }
}

#[test]
fn replicate_for_no_node_makes_no_message() {
    assert!(sample(5).replicate(0).is_empty());
}

#[test]
fn replicate_for_one_node_makes_one_message() {
    let request = sample(5);
    assert_eq!(request.replicate(1), vec![request.clone()]);
}
