use dorothy::registry::{ChatMedium, HistoryMap};

#[test]
fn registry_creates_lazily_and_finds_by_channel() {
    let mut map = HistoryMap::default();
    assert!(!map.contains_medium(7));
    map.create_from_initial_message(ChatMedium::Guild(1, 7), false);
    assert!(map.contains_medium(7));
    assert!(!map.contains_medium(8));
    map.create_from_initial_message(ChatMedium::Channel(8), true);
    assert!(map.contains_medium(8));
    assert_eq!(map.entries.len(), 2);
}

#[test]
fn get_or_create_is_idempotent_per_channel() {
    let mut map = HistoryMap::default();
    let i = map.get_or_create(ChatMedium::Channel(5), true);
    let j = map.get_or_create(ChatMedium::Channel(5), true);
    assert_eq!(i, j);
    assert_eq!(map.entries.len(), 1);
    assert!(map.entries[i].history.is_private);
}

#[test]
fn histories_are_independent_per_conversation() {
    let mut map = HistoryMap::default();
    let i = map.get_or_create(ChatMedium::Channel(1), false);
    let j = map.get_or_create(ChatMedium::Channel(2), false);
    map.history_mut(i).add_human_log("A", "hi");
    assert_eq!(map.entries[i].history.human_chat_log.len(), 1);
    assert_eq!(map.entries[j].history.human_chat_log.len(), 0);
}

#[test]
fn guild_key_answers_for_its_channel() {
    let m = ChatMedium::Guild(10, 20);
    assert!(m.is_channel(20));
    assert!(!m.is_channel(10));
    let c = ChatMedium::Channel(3);
    assert!(c.is_channel(3));
}
