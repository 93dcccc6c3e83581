use dorothy::history::ChatHistory;

fn words(n: usize) -> String {
    // n - 1 spaces, so an estimated cost of n
    "a ".repeat(n - 1) + "a"
}

#[test]
fn estimate_counts_preamble_alone_after_reset() {
    let mut h = ChatHistory::new(false);
    h.set_start_context(String::from("Hello."));
    assert_eq!(h.tokens_so_far, 1);
    h.set_start_context(String::from("one two three"));
    assert_eq!(h.tokens_so_far, 3);
}

#[test]
fn estimate_is_preamble_plus_turn_costs_under_ceiling() {
    let mut h = ChatHistory::new(false);
    h.set_start_context(String::from("Hello."));
    h.add_human_log("Alice", "hi there");
    // 1 (preamble) + 2 (line) + 1 (speaker name)
    assert_eq!(h.tokens_so_far, 4);
    h.add_ai_log("hey you two");
    // + 3 (line) + 1 (agent label)
    assert_eq!(h.tokens_so_far, 8);
    h.add_human_log("Bob Smith", "ok");
    // + 1 (line) + 2 (name has two segments)
    assert_eq!(h.tokens_so_far, 11);
}

#[test]
fn private_conversation_counts_fixed_label() {
    let mut h = ChatHistory::new(true);
    h.set_start_context(String::from("P"));
    h.add_human_log("Some Long Name", "hi");
    // 1 (preamble) + 1 (line) + 1 (the fixed Human label)
    assert_eq!(h.tokens_so_far, 3);
}

#[test]
fn consecutive_spaces_each_count() {
    assert_eq!(dorothy::tokens::estimate_tokens("a  b"), 3);
    assert_eq!(dorothy::tokens::estimate_tokens(""), 1);
    assert_eq!(dorothy::tokens::estimate_tokens("one"), 1);
}

#[test]
fn purge_drops_oldest_half_and_recounts() {
    let mut h = ChatHistory::new(true);
    h.set_start_context(String::from("P"));
    let line = words(600);
    h.add_human_log("A", &line);
    h.add_human_log("A", &line);
    // 1 + 601 + 601
    assert_eq!(h.tokens_so_far, 1203);
    assert_eq!(h.human_chat_log.len(), 2);
    // the third turn would pass 1500: the oldest floor(2 / 2) = 1 entry
    // goes first, then the turn lands
    h.add_human_log("A", &line);
    assert_eq!(h.human_chat_log.len(), 2);
    assert_eq!(h.tokens_so_far, 1203);
}

#[test]
fn purged_estimate_matches_from_scratch_recount() {
    let mut h = ChatHistory::new(true);
    h.set_start_context(String::from("P"));
    let line = words(400);
    h.add_human_log("A", &line);
    h.add_ai_log(&line);
    h.add_human_log("A", &line);
    // 1 + 401 + 401 + 401
    assert_eq!(h.tokens_so_far, 1204);
    // the next human turn passes the ceiling: the oldest floor(2 / 2) = 1
    // human turn and floor(1 / 2) = 0 agent turns go, the estimate is
    // recounted from the survivors, and the new turn lands on top
    h.add_human_log("A", &line);
    assert_eq!(h.human_chat_log.len(), 2);
    assert_eq!(h.ai_chat_log.len(), 1);
    assert_eq!(h.tokens_so_far, 1 + 3 * 401);
}

#[test]
fn continue_joins_last_agent_turn() {
    let mut h = ChatHistory::new(false);
    h.set_start_context(String::from("P"));
    h.add_ai_log("hello");
    h.continue_last_ai_log(" there friend");
    assert_eq!(h.ai_chat_log.len(), 1);
    assert_eq!(h.ai_chat_log[0], "hello there friend");
    // 1 (preamble) + cost of the joined line (3) + 1 (agent label)
    assert_eq!(h.tokens_so_far, 5);
}

#[test]
fn continue_with_no_agent_turn_drops_text() {
    let mut h = ChatHistory::new(false);
    h.set_start_context(String::from("P"));
    let before = h.tokens_so_far;
    h.continue_last_ai_log("lost words here");
    assert_eq!(h.ai_chat_log.len(), 0);
    assert_eq!(h.tokens_so_far, before);
}

#[test]
fn reset_clears_logs_and_names() {
    let mut h = ChatHistory::new(false);
    h.set_start_context(String::from("P Q"));
    h.note_speaker("Alice");
    h.add_human_log("Alice", "hi");
    h.add_ai_log("hey");
    h.reset();
    assert_eq!(h.human_chat_log.len(), 0);
    assert_eq!(h.ai_chat_log.len(), 0);
    assert_eq!(h.seen_names.len(), 0);
    assert_eq!(h.tokens_so_far, 2);
}

#[test]
fn note_speaker_records_each_name_once() {
    let mut h = ChatHistory::new(false);
    h.note_speaker("Alice");
    h.note_speaker("Bob");
    h.note_speaker("Alice");
    assert_eq!(h.seen_names.len(), 2);
    assert_eq!(h.seen_names[0], "Alice");
    assert_eq!(h.seen_names[1], "Bob");
}

#[test]
fn has_logs_sees_either_side() {
    let mut h = ChatHistory::new(false);
    assert!(!h.has_logs());
    h.add_ai_log("hey");
    assert!(h.has_logs());
    h.reset();
    assert!(!h.has_logs());
    h.add_human_log("A", "hi");
    assert!(h.has_logs());
}

#[test]
fn stop_tokens_private() {
    let mut h = ChatHistory::new(true);
    h.note_speaker("Alice");
    let st = h.get_stop_tokens("Bot");
    assert_eq!(st, vec!["\n".to_string(), "Bot:".to_string(), "Human:".to_string()]);
}

#[test]
fn stop_tokens_public_take_at_most_two_names() {
    let mut h = ChatHistory::new(false);
    let st = h.get_stop_tokens("Bot");
    assert_eq!(st, vec!["\n".to_string(), "Bot:".to_string()]);
    h.note_speaker("Alice");
    h.note_speaker("Bob");
    h.note_speaker("Carol");
    let st = h.get_stop_tokens("Bot");
    assert_eq!(
        st,
        vec![
            "\n".to_string(),
            "Bot:".to_string(),
            "Alice:".to_string(),
            "Bob:".to_string()
        ]
    );
}
