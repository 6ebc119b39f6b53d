use app_commands::greeting::greet;
use app_commands::on_top::{is_always_on_top_reply, set_always_on_top_reply};

#[test]
fn greet_names_the_caller() {
    let r = greet("X");
    assert_eq!(r, "Hello, X! You've been greeted from Rust!");
    assert!(r.contains("X"));
    assert!(r.starts_with("Hello, "));
    assert!(r.ends_with("! You've been greeted from Rust!"));
}

#[test]
fn greet_empty_name() {
    assert_eq!(greet(""), "Hello, ! You've been greeted from Rust!");
}

#[test]
fn greet_longer_name() {
    assert_eq!(
        greet("Ada Lovelace"),
        "Hello, Ada Lovelace! You've been greeted from Rust!"
    );
}

#[test]
fn set_reply_success() {
    assert_eq!(set_always_on_top_reply(None), Ok(()));
}

#[test]
fn set_reply_surfaces_cause_verbatim() {
    let r = set_always_on_top_reply(Some(String::from("window not found")));
    assert_eq!(r, Err(String::from("window not found")));
    assert!(!r.unwrap_err().is_empty());
}

#[test]
fn query_reply_passes_flag_through() {
    assert_eq!(is_always_on_top_reply(Ok(true)), Ok(true));
    assert_eq!(is_always_on_top_reply(Ok(false)), Ok(false));
}

#[test]
fn query_reply_surfaces_cause_verbatim() {
    let r = is_always_on_top_reply(Err(String::from("window destroyed")));
    assert_eq!(r, Err(String::from("window destroyed")));
    assert!(!r.unwrap_err().is_empty());
}
