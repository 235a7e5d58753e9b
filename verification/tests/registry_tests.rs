use libproduct::{ProductName, RegisterError, Registry};

#[test]
fn registering_twice_keeps_the_first_value() {
    let mut registry = Registry::new();
    let first = ProductName::new("dev.thmsn.first", "1.0.0", None);
    let second = ProductName::new("dev.thmsn.second", "2.0.0", None);
    assert!(first.set_global(&mut registry).is_ok());
    assert_eq!(
        second.set_global(&mut registry),
        Err(RegisterError::AlreadyRegistered)
    );
    let stored = ProductName::global(&registry).unwrap();
    assert_eq!(stored.render_name(), "dev.thmsn.first");
    assert_eq!(stored.resolved_version(), "1.0.0");
}

#[test]
fn current_is_none_before_registration() {
    let registry = Registry::new();
    assert!(registry.current().is_none());
    assert!(ProductName::global(&registry).is_none());
}

#[test]
fn exactly_one_of_many_registrations_wins() {
    let mut registry = Registry::new();
    let mut successes = 0;
    for i in 0..8 {
        let name = ProductName::new(&format!("dev.thmsn.n{i}"), "1.0.0", None);
        match name.set_global(&mut registry) {
            Ok(()) => successes += 1,
            Err(RegisterError::AlreadyRegistered) => {}
        }
    }
    assert_eq!(successes, 1);
    let stored = registry.current().unwrap();
    assert_eq!(stored.render_name(), "dev.thmsn.n0");
}
