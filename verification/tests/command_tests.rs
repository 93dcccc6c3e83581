use dorothy::commands::{apply_command, parse_command, Command, CommandReply};
use dorothy::history::ChatHistory;

fn run(h: &mut ChatHistory, line: &str) -> Option<CommandReply> {
    let cmd = parse_command(line).expect("line should carry the command prefix");
    apply_command(h, cmd, "Bot")
}

#[test]
fn unprefixed_line_is_no_command() {
    assert!(parse_command("hello there").is_none());
    assert!(parse_command("temperature 0.5").is_none());
}

#[test]
fn temperature_clears_sets_and_survives_garbage() {
    let mut h = ChatHistory::new(false);
    // the default is set
    assert_eq!(h.configuration.temperature, Some("0.9".to_string()));
    run(&mut h, "!temperature");
    assert_eq!(h.configuration.temperature, None);
    run(&mut h, "!temperature 0.5");
    assert_eq!(h.configuration.temperature, Some("0.5".to_string()));
    // an unparsable value leaves the prior one untouched
    run(&mut h, "!temperature abc");
    assert_eq!(h.configuration.temperature, Some("0.5".to_string()));
}

#[test]
fn other_float_settings_parse_the_same_way() {
    let mut h = ChatHistory::new(false);
    run(&mut h, "!frequency_penalty 1.25");
    assert_eq!(h.configuration.frequency_penalty, Some("1.25".to_string()));
    run(&mut h, "!presence_penalty -0.5");
    assert_eq!(h.configuration.presence_penalty, Some("-0.5".to_string()));
    run(&mut h, "!presence_penalty 1.2.3");
    assert_eq!(h.configuration.presence_penalty, Some("-0.5".to_string()));
    run(&mut h, "!frequency_penalty");
    assert_eq!(h.configuration.frequency_penalty, None);
}

#[test]
fn top_p_takes_an_unsigned_integer() {
    let mut h = ChatHistory::new(false);
    assert_eq!(h.configuration.top_p, Some(1));
    run(&mut h, "!top_p 2");
    assert_eq!(h.configuration.top_p, Some(2));
    run(&mut h, "!top_p 2.5");
    assert_eq!(h.configuration.top_p, Some(2));
    run(&mut h, "!top_p");
    assert_eq!(h.configuration.top_p, None);
}

#[test]
fn reset_command_clears_and_confirms() {
    let mut h = ChatHistory::new(false);
    h.add_human_log("A", "hi");
    let reply = run(&mut h, "!reset");
    assert!(matches!(reply, Some(CommandReply::Cleared)));
    assert_eq!(h.human_chat_log.len(), 0);
}

#[test]
fn log_command_returns_the_rendering() {
    let mut h = ChatHistory::new(false);
    h.set_start_context(String::from("P."));
    h.add_human_log("A", "hi");
    let reply = run(&mut h, "!log");
    match reply {
        Some(CommandReply::Log(text)) => assert_eq!(text, "P.\n\nA: hi "),
        other => panic!("expected a log reply, got {:?}", other.is_some()),
    }
}

#[test]
fn context_command_replaces_preamble_and_resets() {
    let mut h = ChatHistory::new(false);
    h.add_human_log("A", "hi");
    let reply = run(&mut h, "!context=You are terse.");
    match reply {
        Some(CommandReply::ContextSet(text)) => assert_eq!(text, "You are terse."),
        other => panic!("expected a context reply, got {:?}", other.is_some()),
    }
    assert_eq!(h.start_context, "You are terse.");
    assert_eq!(h.human_chat_log.len(), 0);
    assert_eq!(h.tokens_so_far, 3);
}

#[test]
fn info_reports_values_and_not_set() {
    let mut h = ChatHistory::new(false);
    h.set_start_context(String::from("P."));
    run(&mut h, "!temperature");
    run(&mut h, "!top_p 7");
    let reply = run(&mut h, "!info");
    match reply {
        Some(CommandReply::Info(rep)) => {
            assert_eq!(rep.temperature, "Not set");
            assert_eq!(rep.top_p, "7");
            assert_eq!(rep.presence_penalty, "0.6");
            assert_eq!(rep.frequency_penalty, "0");
            assert_eq!(rep.start_context, "P.");
            assert_eq!(rep.tokens_so_far, 1);
        }
        other => panic!("expected an info reply, got {:?}", other.is_some()),
    }
}

#[test]
fn unknown_prefixed_line_is_swallowed() {
    let mut h = ChatHistory::new(false);
    let before_tokens = h.tokens_so_far;
    let reply = run(&mut h, "!frobnicate 3");
    assert!(reply.is_none());
    assert_eq!(h.tokens_so_far, before_tokens);
    assert_eq!(h.human_chat_log.len(), 0);
}

#[test]
fn authorization_is_plain_membership() {
    let allow = vec![599131785732816898u64, 470255953090969602u64];
    assert!(dorothy::commands::is_authorized(599131785732816898, &allow));
    assert!(!dorothy::commands::is_authorized(42, &allow));
}

#[test]
fn top_p_rejects_an_overflowing_value() {
    let mut h = ChatHistory::new(false);
    run(&mut h, "!top_p 99999999999999999999999999999999");
    assert_eq!(h.configuration.top_p, Some(1));
    run(&mut h, "!top_p 1234567890");
    assert_eq!(h.configuration.top_p, Some(1234567890));
    let reply = run(&mut h, "!info");
    match reply {
        Some(CommandReply::Info(rep)) => assert_eq!(rep.top_p, "1234567890"),
        _ => panic!("expected an info reply"),
    }
}

#[test]
fn parser_keeps_value_text_verbatim() {
    match parse_command("!temperature 0.50") {
        Some(Command::Temperature(Some(v))) => assert_eq!(v, "0.50"),
        _ => panic!("expected a set temperature command"),
    }
}
