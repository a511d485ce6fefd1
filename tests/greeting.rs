use app_bridge::greet;

#[test]
fn greet_wraps_name() {
    assert_eq!(greet("World"), "Hello, World! You've been greeted from Rust!");
}

#[test]
fn greet_accepts_empty_name() {
    assert_eq!(greet(""), "Hello, ! You've been greeted from Rust!");
}

#[test]
fn greet_keeps_name_verbatim() {
    let name = "  Ünïcode <b>&amp; \"quotes\" ! ";
    let expected = format!("Hello, {}! You've been greeted from Rust!", name);
    assert_eq!(greet(name), expected);
}

#[test]
fn greet_is_repeatable() {
    assert_eq!(greet("Ann"), greet("Ann"));
    assert_ne!(greet("Ann"), greet("ann"));
}

#[test]
fn greet_long_name() {
    let name = "x".repeat(10_000);
    let r = greet(&name);
    assert!(r.starts_with("Hello, "));
    assert!(r.ends_with("! You've been greeted from Rust!"));
    assert_eq!(r.len(), 7 + 10_000 + 32);
}
