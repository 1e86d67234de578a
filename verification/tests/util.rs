use meili::util::console_should_be_freed;

#[test]
fn console_is_freed_only_when_launched_alone() {
    assert!(!console_should_be_freed(0));
    assert!(console_should_be_freed(1));
    assert!(console_should_be_freed(2));
    assert!(!console_should_be_freed(3));
    assert!(!console_should_be_freed(16));
}
