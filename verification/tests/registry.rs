use dots_client::registry::NodeRegistry;

fn names(list: &[&str]) -> Vec<String> {
    list.iter().map(|name| name.to_string()).collect()
}

#[test]
fn registry_keeps_the_order_given() {
    let registry = NodeRegistry::new(names(&["http://localhost:50050", "http://localhost:50051", "http://localhost:50052"]));
    assert_eq!(registry.len(), 3);
    assert_eq!(
        registry.addresses(),
        &names(&["http://localhost:50050", "http://localhost:50051", "http://localhost:50052"])
    );
}

#[test]
fn registry_gives_the_same_addresses_every_time() {
    let registry = NodeRegistry::new(names(&["b", "a", "c"]));
    let first = registry.addresses().clone();
    let second = registry.addresses().clone();
    assert_eq!(first, second);
    assert_eq!(first, names(&["b", "a", "c"]));
}

#[test]
fn registry_finds_a_node_by_its_position() {
    let registry = NodeRegistry::new(names(&["A", "B"]));
    assert_eq!(registry.address(0), Some(&"A".to_string()));
    assert_eq!(registry.address(1), Some(&"B".to_string()));
}

#[test]
fn registry_has_no_node_past_its_end() {
    let registry = NodeRegistry::new(names(&["A", "B"]));
    assert_eq!(registry.address(2), None);
    assert_eq!(registry.address(usize::MAX), None);
}

#[test]
fn empty_registry_has_no_node() {
    let registry = NodeRegistry::new(Vec::new());
    assert_eq!(registry.len(), 0);
    assert!(registry.addresses().is_empty());
    assert_eq!(registry.address(0), None);
}

#[test]
fn registry_keeps_equal_addresses_apart() {
    let registry = NodeRegistry::new(names(&["A", "A"]));
    assert_eq!(registry.len(), 2);
    assert_eq!(registry.address(1), Some(&"A".to_string()));
}
