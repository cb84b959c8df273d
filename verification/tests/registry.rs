use connector_rpc::registry::{BuildError, Descriptor, Registry, Table};

fn descriptor(name: &str, operation: &str, invoke: u32) -> Descriptor<u32> {
    Descriptor { name: name.to_string(), operation: operation.to_string(), invoke }
}

fn build(descriptors: Vec<Descriptor<u32>>) -> Table<u32> {
    let mut registry = Registry::new();
    for d in descriptors {
        registry.register(d);
    }
    registry.build().expect("keys are unique")
}

#[test]
fn lookup_returns_registered_invoke() {
    let table = build(vec![
        descriptor("math", "add", 1),
        descriptor("math", "sub", 2),
        descriptor("text", "add", 3),
    ]);
    assert_eq!(table.lookup("math", "add"), Some(&1));
    assert_eq!(table.lookup("math", "sub"), Some(&2));
    assert_eq!(table.lookup("text", "add"), Some(&3));
}

#[test]
fn lookup_unknown_key_is_none() {
    let table = build(vec![descriptor("math", "add", 1)]);
    assert_eq!(table.lookup("math", "mul"), None);
    assert_eq!(table.lookup("text", "add"), None);
    assert_eq!(table.lookup("", ""), None);
}

#[test]
fn lookup_on_empty_table_is_none() {
    let table = build(vec![]);
    assert_eq!(table.lookup("math", "add"), None);
}

#[test]
fn registration_order_does_not_matter() {
    let forward = build(vec![
        descriptor("math", "add", 1),
        descriptor("math", "sub", 2),
        descriptor("text", "add", 3),
    ]);
    let backward = build(vec![
        descriptor("text", "add", 3),
        descriptor("math", "sub", 2),
        descriptor("math", "add", 1),
    ]);
    for (name, operation) in [("math", "add"), ("math", "sub"), ("text", "add"), ("math", "mul")] {
        assert_eq!(forward.lookup(name, operation), backward.lookup(name, operation));
    }
}

#[test]
fn duplicate_registration_is_rejected() {
    let mut registry = Registry::new();
    registry.register(descriptor("math", "add", 1));
    registry.register(descriptor("math", "sub", 2));
    registry.register(descriptor("math", "add", 3));
    match registry.build() {
        Ok(_) => panic!("a duplicate key must fail the build"),
        Err(BuildError::DuplicateRegistration { name, operation }) => {
            assert_eq!(name, "math");
            assert_eq!(operation, "add");
        },
    }
}

#[test]
fn same_operation_under_two_names_is_no_duplicate() {
    let mut registry = Registry::new();
    registry.register(descriptor("alpha", "run", 1));
    registry.register(descriptor("beta", "run", 2));
    let table = registry.build().expect("distinct names are distinct keys");
    assert_eq!(table.lookup("alpha", "run"), Some(&1));
    assert_eq!(table.lookup("beta", "run"), Some(&2));
}
