use dorothy::history::ChatHistory;

#[test]
fn lone_human_turn_ends_in_space() {
    let mut h = ChatHistory::new(false);
    h.set_start_context(String::from("Hello."));
    h.add_human_log("Alice", "hi");
    assert_eq!(h.to_string("Bot"), "Hello.\n\nAlice: hi ");
}

#[test]
fn alternating_turns_end_in_space_after_agent() {
    let mut h = ChatHistory::new(false);
    h.set_start_context(String::from("P."));
    h.add_human_log("A", "hi");
    h.add_ai_log("hey");
    assert_eq!(h.to_string("Bot"), "P.\n\nA: hi\nBot: hey ");
}

#[test]
fn private_conversation_renders_fixed_label() {
    let mut h = ChatHistory::new(true);
    h.set_start_context(String::from("P."));
    h.add_human_log("Alice", "hi");
    h.add_ai_log("hey");
    h.add_human_log("Alice", "bye");
    assert_eq!(h.to_string("Bot"), "P.\n\nHuman: hi\nBot: hey\nHuman: bye ");
}

#[test]
fn rendering_trims_each_line() {
    let mut h = ChatHistory::new(false);
    h.set_start_context(String::from("P."));
    h.add_human_log("A", "  hi there \t");
    assert_eq!(h.to_string("Bot"), "P.\n\nA: hi there ");
}

#[test]
fn empty_logs_render_preamble_and_blank_line() {
    let mut h = ChatHistory::new(false);
    h.set_start_context(String::from("Just this."));
    assert_eq!(h.to_string("Bot"), "Just this.\n\n");
}

#[test]
fn unequal_logs_exhaust_the_shorter_side() {
    let mut h = ChatHistory::new(false);
    h.set_start_context(String::from("P."));
    h.add_human_log("A", "one");
    h.add_ai_log("two");
    h.add_human_log("A", "three");
    h.add_human_log("B", "four");
    // after the agent log runs out the remaining human turns follow at
    // their own cadence
    assert_eq!(h.to_string("Bot"), "P.\n\nA: one\nBot: two\nA: three\nB: four ");
}

#[test]
fn rendering_twice_is_identical() {
    let mut h = ChatHistory::new(false);
    h.set_start_context(String::from("P."));
    h.add_human_log("A", "hi");
    h.add_ai_log("hey");
    let first = h.to_string("Bot");
    let second = h.to_string("Bot");
    assert_eq!(first, second);
}

#[test]
fn default_context_starts_the_rendering() {
    let h = ChatHistory::new(false);
    let text = h.to_string("Bot");
    assert!(text.starts_with("The following is a conversation with an AI named Dorothy."));
    assert!(text.ends_with("\n\n"));
}
