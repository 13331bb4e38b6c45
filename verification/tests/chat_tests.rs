use cookie_clicker::chat::{accepts_incoming, ChatMessage, ChatState, MAX_CHAT_MESSAGES};

fn chat_for(identity: &str, input: &str, open: bool, pinged: bool) -> ChatState {
    let mut chat = ChatState::new(identity.to_string());
    chat.input_buffer = input.to_string();
    chat.chat_open = open;
    chat.pending_ping = pinged;
    chat
}

fn message(sender: &str, content: &str, timestamp: u64) -> ChatMessage {
    ChatMessage { sender: sender.to_string(), content: content.to_string(), timestamp }
}

#[test]
fn test_is_user_pinged() {
    assert!(ChatState::is_user_pinged("hello $alice@host", "alice@host"));
    assert!(!ChatState::is_user_pinged("hello alice@host", "alice@host"));
    assert!(!ChatState::is_user_pinged("hello $bob@host", "alice@host"));
}

#[test]
fn test_message_contains_ping() {
    assert!(ChatState::message_contains_ping("hey $user@pc"));
    assert!(!ChatState::message_contains_ping("hello world"));
}

#[test]
fn test_chat_send_message() {
    let mut chat = chat_for("test@host", "hello world", true, false);
    chat.send_message(0);
    assert_eq!(chat.messages.len(), 1);
    assert_eq!(chat.messages[0].content, "hello world");
    assert_eq!(chat.messages[0].sender, "test@host");
    assert!(chat.input_buffer.is_empty());
}

#[test]
fn test_chat_empty_message_not_sent() {
    let mut chat = chat_for("test@host", "   ", true, false);
    chat.send_message(0);
    assert_eq!(chat.messages.len(), 0);
}

#[test]
fn test_poll_incoming_detects_ping() {
    let mut chat = chat_for("me@host", "", true, false);
    // Simulate an incoming message that pings us
    let batch = vec![message("other@host", "hey $me@host check this out", 12345)];
    chat.poll_incoming(batch);
    assert!(chat.pending_ping);
    assert_eq!(chat.messages.len(), 1);
    assert!(chat.known_users.contains(&"other@host".to_string()));
}

#[test]
fn test_consume_ping() {
    let mut chat = chat_for("test@host", "", false, true);
    assert!(chat.consume_ping());
    assert!(!chat.consume_ping()); // Should be consumed
}

#[test]
fn sent_messages_are_trimmed_and_stamped() {
    let mut chat = chat_for("me@host", "  hi there \t", true, false);
    let sent = chat.send_message(99).unwrap();
    assert_eq!(sent.content, "hi there");
    assert_eq!(sent.sender, "me@host");
    assert_eq!(sent.timestamp, 99);
    assert_eq!(chat.messages[0].content, "hi there");
}

#[test]
fn over_long_messages_are_kept_back() {
    let long = "x".repeat(501);
    let mut chat = chat_for("me@host", &long, true, false);
    assert!(chat.send_message(1).is_none());
    assert_eq!(chat.input_buffer, long);
    assert!(chat.messages.is_empty());
    let just_fits = "y".repeat(500);
    chat.input_buffer = just_fits.clone();
    assert_eq!(chat.send_message(2).unwrap().content, just_fits);
}

#[test]
fn history_keeps_the_latest_messages() {
    let mut chat = chat_for("me@host", "", true, false);
    let batch: Vec<ChatMessage> = (0..60u64).map(|i| message("a@b", &format!("m{}", i), i)).collect();
    chat.poll_incoming(batch);
    assert_eq!(chat.messages.len(), MAX_CHAT_MESSAGES);
    assert_eq!(chat.messages[0].content, "m10");
    assert_eq!(chat.messages[MAX_CHAT_MESSAGES - 1].content, "m59");
    assert_eq!(chat.known_users, vec!["a@b".to_string()]);
    assert!(!chat.pending_ping);
}

#[test]
fn known_users_are_listed_once_in_arrival_order() {
    let mut chat = chat_for("me@host", "", true, false);
    chat.poll_incoming(vec![message("b@x", "hi", 1), message("a@x", "yo", 2), message("b@x", "again", 3)]);
    assert_eq!(chat.known_users, vec!["b@x".to_string(), "a@x".to_string()]);
    assert_eq!(chat.messages.len(), 3);
}

#[test]
fn incoming_filter_drops_own_and_oversized_messages() {
    let me = "me@host".to_string();
    assert!(!accepts_incoming(&message("me@host", "echo", 1), &me));
    assert!(accepts_incoming(&message("you@host", "hello", 1), &me));
    assert!(!accepts_incoming(&message("you@host", &"z".repeat(501), 1), &me));
    assert!(!accepts_incoming(&message(&"s".repeat(201), "hello", 1), &me));
    assert!(accepts_incoming(&message(&"s".repeat(200), &"z".repeat(500), 1), &me));
}

#[test]
fn tab_completion_cycles_through_matching_users() {
    let mut chat = chat_for("me@host", "hey $Al", true, false);
    chat.poll_incoming(vec![
        message("alice@host", "a", 1),
        message("bob@host", "b", 2),
        message("alfred@pc", "c", 3),
    ]);
    chat.tab_complete();
    assert_eq!(chat.input_buffer, "hey $alice@host ");
    chat.tab_complete();
    assert_eq!(chat.input_buffer, "hey $alfred@pc ");
    chat.tab_complete();
    assert_eq!(chat.input_buffer, "hey $alice@host ");
    chat.reset_tab();
    assert!(chat.tab_index.is_none());
    assert!(chat.tab_prefix.is_none());
}

#[test]
fn tab_completion_without_a_match_leaves_the_buffer() {
    let mut chat = chat_for("me@host", "hi $zed", true, false);
    chat.poll_incoming(vec![message("alice@host", "a", 1)]);
    chat.tab_complete();
    assert_eq!(chat.input_buffer, "hi $zed");
    let mut empty = chat_for("me@host", "hi $a", true, false);
    empty.tab_complete();
    assert_eq!(empty.input_buffer, "hi $a");
    assert!(empty.tab_prefix.is_none());
}

#[test]
fn duplicate_copies_a_message() {
    let m = message("a@b", "text", 5);
    let d = m.duplicate();
    assert_eq!(d.sender, "a@b");
    assert_eq!(d.content, "text");
    assert_eq!(d.timestamp, 5);
}

#[test]
fn completion_with_given_lowercase_names() {
    let mut chat = chat_for("me@host", "hi $b", true, false);
    chat.poll_incoming(vec![message("Bob@X", "a", 1), message("bea@y", "b", 2), message("me@host", "c", 3)]);
    let lowered = vec!["bob@x".to_string(), "bea@y".to_string(), "me@host".to_string()];
    chat.complete_with(3, "b", &lowered);
    assert_eq!(chat.input_buffer, "hi $Bob@X ");
    assert_eq!(chat.tab_index, Some(0));
    chat.complete_with(3, "b", &lowered);
    assert_eq!(chat.input_buffer, "hi $bea@y ");
    chat.complete_with(3, "zz", &lowered);
    assert_eq!(chat.input_buffer, "hi $bea@y ");
    assert_eq!(chat.tab_index, Some(1));
}
