use unvu_bot::command::CommandOption;
use unvu_bot::dispatch::{dispatch, not_implemented_reply, Dispatch};
use unvu_bot::ping;

fn no_options() -> Vec<CommandOption> {
    Vec::new()
}

fn odd_options() -> Vec<CommandOption> {
    vec![
        CommandOption { name: String::from("volume"), value: String::from("eleven") },
        CommandOption { name: String::new(), value: String::from("\u{0}garbage\u{0}") },
    ]
}

#[test]
fn ping_replies_with_fixed_text() {
    assert_eq!(ping::run(&no_options()), "Wow, this is so rusty!");
}

#[test]
fn ping_ignores_malformed_options() {
    assert_eq!(ping::run(&odd_options()), "Wow, this is so rusty!");
}

#[test]
fn ping_registration_data() {
    let c = ping::register();
    assert_eq!(c.name, "ping");
    assert_eq!(c.description, "This gives you a message back.");
}

#[test]
fn dispatch_ping_gives_ping_reply() {
    match dispatch("ping", &odd_options()) {
        Dispatch::Reply { content } => assert_eq!(content, "Wow, this is so rusty!"),
        Dispatch::RunBing => panic!("ping must not start the voice flow"),
    }
}

#[test]
fn dispatch_bing_starts_voice_flow() {
    assert!(matches!(dispatch("bing", &no_options()), Dispatch::RunBing));
}

#[test]
fn dispatch_unknown_names_get_fixed_reply() {
    for name in ["pong", "", "PING", "ping ", "bingo", "not implemented :("] {
        match dispatch(name, &no_options()) {
            Dispatch::Reply { content } => assert_eq!(content, "not implemented :("),
            Dispatch::RunBing => panic!("{name} must not start the voice flow"),
        }
    }
}

#[test]
fn not_implemented_reply_text() {
    assert_eq!(not_implemented_reply(), "not implemented :(");
}
