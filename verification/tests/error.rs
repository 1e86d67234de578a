use meili::error::MeiliError;

#[test]
fn error_keeps_its_message() {
    let e = MeiliError::new("bad header");
    assert_eq!(e.message, "bad header");
    let b = MeiliError::new_boxed("");
    assert_eq!(b.message, "");
}

#[test]
fn error_display_and_debug_forms() {
    let e = MeiliError::new("bad header");
    assert_eq!(e.to_string(), "bad header");
    assert_eq!(e.debug_string(), "MeiliError { message: bad header }");
}
