use dorothy::history::ChatHistory;
use dorothy::{Choice, Completion, FinishReason, GPT3Client, Model};
use dorothy::completion::ReplyLoop;

#[test]
fn client_adds_bearer_scheme_once() {
    let c = GPT3Client::new("sk-123");
    assert_eq!(c.auth_token(), "Bearer sk-123");
    let c = GPT3Client::new("Bearer sk-123");
    assert_eq!(c.auth_token(), "Bearer sk-123");
}

#[test]
fn model_names() {
    assert_eq!(Model::Davinci.to_string(), "davinci");
    assert_eq!(Model::Curie.to_string(), "curie");
    assert_eq!(Model::Babbage.to_string(), "babbage");
    assert_eq!(Model::Ada.to_string(), "ada");
}

#[test]
fn completion_url_names_the_model() {
    assert_eq!(
        dorothy::completion::completion_url(Model::Davinci),
        "https://api.openai.com/v1/engines/davinci/completions"
    );
}

#[test]
fn first_round_prompt_is_primed_with_the_agent_label() {
    let mut h = ChatHistory::new(false);
    h.set_start_context(String::from("P."));
    h.add_human_log("A", "hi");
    let lp = ReplyLoop::new();
    assert_eq!(lp.prompt(&h, "Bot"), "P.\n\nA: hi Bot:");
}

#[test]
fn request_carries_configuration_and_stop_tokens() {
    let mut h = ChatHistory::new(false);
    h.set_start_context(String::from("P."));
    h.note_speaker("A");
    let lp = ReplyLoop::new();
    let req = lp.make_request(&h, "Bot");
    assert_eq!(req.max_tokens, 50);
    assert_eq!(req.choices_per_prompt, Some(1));
    assert_eq!(req.temperature, Some("0.9".to_string()));
    assert_eq!(req.top_p, Some(1));
    assert_eq!(
        req.stop_tokens,
        Some(vec!["\n".to_string(), "Bot:".to_string(), "A:".to_string()])
    );
}

#[test]
fn length_then_stop_merges_into_one_agent_turn() {
    let mut h = ChatHistory::new(false);
    h.set_start_context(String::from("P."));
    h.add_human_log("A", "hi");
    let mut lp = ReplyLoop::new();
    let first = Completion {
        choices: vec![Choice { text: "Hello\nthere".to_string(), finish_reason: FinishReason::Length }],
    };
    let done = lp.step(&mut h, &first);
    assert!(!done);
    let second = Completion {
        choices: vec![Choice { text: " friend".to_string(), finish_reason: FinishReason::Stop }],
    };
    let done = lp.step(&mut h, &second);
    assert!(done);
    assert_eq!(lp.reply, "Hello there friend");
    assert_eq!(h.ai_chat_log.len(), 1);
    assert_eq!(h.ai_chat_log[0], "Hello there friend");
}

#[test]
fn empty_response_ends_the_loop_untouched() {
    let mut h = ChatHistory::new(false);
    let before = h.tokens_so_far;
    let mut lp = ReplyLoop::new();
    let done = lp.step(&mut h, &Completion { choices: vec![] });
    assert!(done);
    assert!(lp.first_round);
    assert_eq!(lp.reply, "");
    assert_eq!(h.tokens_so_far, before);
}

#[test]
fn continuation_round_renders_without_priming() {
    let mut h = ChatHistory::new(false);
    h.set_start_context(String::from("P."));
    h.add_human_log("A", "hi");
    let mut lp = ReplyLoop::new();
    let first = Completion {
        choices: vec![Choice { text: "He".to_string(), finish_reason: FinishReason::Length }],
    };
    lp.step(&mut h, &first);
    assert_eq!(lp.prompt(&h, "Bot"), "P.\n\nA: hi\nBot: He ");
}
