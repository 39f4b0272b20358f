use asimov_cli::status::Termination;
use asimov_cli::help::{
    describe_command, ChildPoll, CommandDescription, Help, PollAction, HELP_WAIT_LIMIT_NANOS,
};

const FETCH_HELP: &str = "Fetch a resource\nfrom a URL\n\nUsage: asimov-fetch [OPTIONS] <URL>\n\nOptions:\n  -h, --help\n";

#[test]
fn usage_and_description_are_extracted() {
    let d = describe_command("fetch".to_string(), FETCH_HELP);
    assert_eq!(d.name, "fetch");
    assert_eq!(d.description, "Fetch a resource\nfrom a URL");
    assert_eq!(d.usage.as_deref(), Some("Usage: asimov-fetch [OPTIONS] <URL>"));
}

#[test]
fn description_stops_at_a_whitespace_only_line() {
    let d = describe_command("x".to_string(), "one\r\ntwo\r\n \t\r\nthree\nUsage: x\nUsage: y");
    assert_eq!(d.description, "one\ntwo");
    assert_eq!(d.usage.as_deref(), Some("Usage: x"));
}

#[test]
fn missing_usage_and_empty_text() {
    let d = describe_command("x".to_string(), "");
    assert_eq!(d.description, "");
    assert_eq!(d.usage, None);
    let d = describe_command("x".to_string(), "\nUsage:x");
    assert_eq!(d.description, "");
    assert_eq!(d.usage.as_deref(), Some("Usage:x"));
    let d = describe_command("x".to_string(), "  Usage: indented\nusage: lower");
    assert_eq!(d.usage, None);
    assert_eq!(d.description, "  Usage: indented\nusage: lower");
}

#[test]
fn lone_carriage_return_stays_in_the_line() {
    let d = describe_command("x".to_string(), "a\rb\nc\r");
    assert_eq!(d.description, "a\rb\nc\r");
}

#[test]
fn help_execute_keeps_order() {
    let out = Help.execute(vec![
        ("fetch".to_string(), FETCH_HELP.to_string()),
        ("list".to_string(), "List things\n".to_string()),
    ]);
    assert_eq!(out.len(), 2);
    assert_eq!(out[0].name, "fetch");
    assert_eq!(out[1].name, "list");
    assert_eq!(out[1].description, "List things");
    assert_eq!(out[1].usage, None);
}

#[test]
fn shown_arguments_strip_the_expected_prefix() {
    let d = describe_command("fetch".to_string(), FETCH_HELP);
    assert_eq!(d.shown_arguments(), "[OPTIONS] <URL>");
    let other = CommandDescription {
        name: "list".to_string(),
        description: String::new(),
        usage: Some("Usage: list-tool <X>".to_string()),
    };
    assert_eq!(other.shown_arguments(), "[OPTIONS] [COMMAND]");
    let none = CommandDescription { name: "x".to_string(), description: String::new(), usage: None };
    assert_eq!(none.shown_arguments(), "[OPTIONS] [COMMAND]");
}

#[test]
fn description_lines_are_indented() {
    let d = CommandDescription {
        name: "x".to_string(),
        description: "first\nsecond\nthird".to_string(),
        usage: None,
    };
    assert_eq!(d.indented_description(), "first\n\tsecond\n\tthird");
}

#[test]
fn polling_honours_the_shared_deadline() {
    let limit = HELP_WAIT_LIMIT_NANOS;
    assert_eq!(limit, 1_000_000_000);
    assert_eq!(Help.poll_action(ChildPoll::Running, 10, 200), PollAction::Wait);
    assert_eq!(Help.poll_action(ChildPoll::Running, 200, 200), PollAction::Wait);
    assert_eq!(Help.poll_action(ChildPoll::Running, 201, 200), PollAction::Kill);
    assert_eq!(Help.poll_action(ChildPoll::Exited, 200, 200), PollAction::Collect);
    assert_eq!(Help.poll_action(ChildPoll::Exited, 201, 200), PollAction::Drop);
    assert_eq!(Help.poll_action(ChildPoll::Exited, 5_000, 200), PollAction::Drop);
    assert_eq!(Help.poll_action(ChildPoll::Failed, 0, 200), PollAction::Drop);
}

#[test]
fn only_successful_help_output_is_kept() {
    assert!(Help.keeps_output(Termination::Exited(0)));
    assert!(!Help.keeps_output(Termination::Exited(1)));
    assert!(!Help.keeps_output(Termination::Signaled(9)));
    assert!(!Help.keeps_output(Termination::Unknown));
}

#[test]
fn unicode_white_space_makes_a_line_blank() {
    let d = describe_command("x".to_string(), "first\n\u{3000}\u{a0}\u{2009}\nsecond");
    assert_eq!(d.description, "first");
    let d = describe_command("x".to_string(), "first\n\u{200b}\nsecond");
    assert_eq!(d.description, "first\n\u{200b}\nsecond");
}
