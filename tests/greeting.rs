use voxscribe::greet;

#[test]
fn greet_world() {
    assert_eq!(greet("World"), "Hello, World! You've been greeted from Rust!");
}

#[test]
fn greet_empty_name() {
    assert_eq!(greet(""), "Hello, ! You've been greeted from Rust!");
}

#[test]
fn greet_non_ascii_name() {
    assert_eq!(greet("Zoë"), "Hello, Zoë! You've been greeted from Rust!");
}
