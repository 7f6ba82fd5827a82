use rusty_chat_sync::chat::{find_message, order_messages, ChatAction, ChatState};
use rusty_chat_sync::models::{
    Conversation, Message, MessageData, MessageStatus, MessageType, User,
};

fn message(id: &str, timestamp: u64) -> Message {
    Message {
        message_id: id.to_string(),
        content: format!("content of {}", id),
        sender: "alice".to_string(),
        timestamp,
        status: MessageStatus::Sending,
        message_type: MessageType::Text,
        chat_id: "CHAT#alice#bob".to_string(),
    }
}

fn ids(messages: &[Message]) -> Vec<String> {
    messages.iter().map(|m| m.message_id.clone()).collect()
}

fn state_with(messages: Vec<Message>) -> ChatState {
    let mut state = ChatState::new();
    state.messages = messages;
    state
}

#[test]
fn new_chat_state_is_empty() {
    let state = ChatState::new();
    assert_eq!(
        state,
        ChatState {
            messages: vec![],
            conversations: vec![],
            is_loading: false,
            error: None,
            current_chat_id: None,
            users: vec![],
        }
    );
}

#[test]
fn order_messages_sorts_by_time_and_keeps_ties_in_place() {
    let sorted = order_messages(vec![
        message("a", 30),
        message("b", 10),
        message("c", 30),
        message("d", 20),
        message("e", 10),
        message("f", 0),
    ]);
    assert_eq!(ids(&sorted), vec!["f", "b", "e", "d", "a", "c"]);
    assert_eq!(order_messages(vec![]), vec![]);
    assert_eq!(ids(&order_messages(vec![message("x", 5)])), vec!["x"]);
}

#[test]
fn order_messages_agrees_with_a_stable_sort() {
    let mut seed: u64 = 12345;
    for round in 0..40 {
        let mut messages = Vec::new();
        let mut expected = Vec::new();
        for n in 0..round {
            seed = seed.wrapping_mul(6364136223846793005).wrapping_add(1442695040888963407);
            let time = (seed >> 33) % 7;
            messages.push(message(&format!("m{}", n), time));
            expected.push(message(&format!("m{}", n), time));
        }
        expected.sort_by(|a, b| a.timestamp.cmp(&b.timestamp));
        assert_eq!(order_messages(messages), expected);
    }
}

#[test]
fn find_message_gives_the_first_with_the_id() {
    let messages = vec![message("a", 1), message("b", 2), message("a", 3)];
    assert_eq!(find_message(&messages, "a"), Some(0));
    assert_eq!(find_message(&messages, "b"), Some(1));
    assert_eq!(find_message(&messages, "c"), None);
    assert_eq!(find_message(&vec![], "a"), None);
}

#[test]
fn add_message_inserts_in_time_order() {
    let state = state_with(vec![message("a", 10), message("b", 30)]);
    let next = state.reduce(ChatAction::AddMessage(message("c", 20)));
    assert_eq!(ids(&next.messages), vec!["a", "c", "b"]);
    let next = next.reduce(ChatAction::AddMessage(message("d", 30)));
    assert_eq!(ids(&next.messages), vec!["a", "c", "b", "d"]);
    let next = next.reduce(ChatAction::AddMessage(message("e", 0)));
    assert_eq!(ids(&next.messages), vec!["e", "a", "c", "b", "d"]);
}

#[test]
fn add_message_sorts_what_was_out_of_order() {
    let state = state_with(vec![message("a", 30), message("b", 10)]);
    let next = state.reduce(ChatAction::AddMessage(message("c", 20)));
    assert_eq!(ids(&next.messages), vec!["b", "c", "a"]);
}

#[test]
fn add_message_with_a_known_id_changes_nothing() {
    let state = state_with(vec![message("a", 30), message("b", 10)]);
    let mut duplicate = message("a", 5);
    duplicate.content = "other".to_string();
    let next = state.reduce(ChatAction::AddMessage(duplicate));
    assert_eq!(next.messages, vec![message("a", 30), message("b", 10)]);
}

#[test]
fn update_message_status_changes_the_first_match_only() {
    let state = state_with(vec![message("a", 30), message("b", 10), message("a", 40)]);
    let next = state.reduce(ChatAction::UpdateMessageStatus("a".to_string(), MessageStatus::Failed));
    let mut failed = message("a", 30);
    failed.status = MessageStatus::Failed;
    assert_eq!(next.messages, vec![failed, message("b", 10), message("a", 40)]);
    let same = next.reduce(ChatAction::UpdateMessageStatus("zz".to_string(), MessageStatus::Sent));
    assert_eq!(ids(&same.messages), vec!["a", "b", "a"]);
}

#[test]
fn update_message_replaces_marks_sent_and_sorts() {
    let state = state_with(vec![message("local", 10), message("b", 20)]);
    let mut server = message("server", 25);
    server.status = MessageStatus::Sending;
    let next = state.reduce(ChatAction::UpdateMessage("local".to_string(), server));
    let mut expected = message("server", 25);
    expected.status = MessageStatus::Sent;
    assert_eq!(next.messages, vec![message("b", 20), expected]);
}

#[test]
fn update_message_without_a_match_still_sorts() {
    let state = state_with(vec![message("a", 30), message("b", 10)]);
    let next = state.reduce(ChatAction::UpdateMessage("zz".to_string(), message("new", 1)));
    assert_eq!(next.messages, vec![message("b", 10), message("a", 30)]);
}

#[test]
fn setters_replace_their_field_only() {
    let state = state_with(vec![message("a", 30)]);
    let state = state.reduce(ChatAction::SetLoading(true));
    assert!(state.is_loading);
    let state = state.reduce(ChatAction::SetError("e".to_string()));
    assert_eq!(state.error, Some("e".to_string()));
    let state = state.reduce(ChatAction::SetCurrentChatId(Some("CHAT#a#b".to_string())));
    assert_eq!(state.current_chat_id, Some("CHAT#a#b".to_string()));
    let state = state.reduce(ChatAction::ClearError);
    assert_eq!(state.error, None);
    let state = state.reduce(ChatAction::SetUsers(vec![User::new("u".to_string(), "u@x".to_string(), 7)]));
    assert_eq!(state.users.len(), 1);
    let state = state.reduce(ChatAction::SetConversations(vec![Conversation::new(
        "bob",
        User::new("alice".to_string(), "a@x".to_string(), 8),
    )]));
    assert_eq!(state.conversations[0].chat_id, "CHAT#alice#bob");
    let state = state.reduce(ChatAction::SetMessages(vec![message("z", 9), message("y", 1)]));
    assert_eq!(ids(&state.messages), vec!["z", "y"]);
    assert!(state.is_loading);
    assert_eq!(state.current_chat_id, Some("CHAT#a#b".to_string()));
    assert_eq!(state.users.len(), 1);
    assert_eq!(state.conversations.len(), 1);
}

#[test]
fn user_new_has_no_status() {
    assert_eq!(
        User::new("u".to_string(), "u@x".to_string(), 7),
        User {
            username: "u".to_string(),
            email: "u@x".to_string(),
            created_at: 7,
            last_seen: None,
            status: None,
        }
    );
}

#[test]
fn conversation_new_is_empty() {
    let conversation = Conversation::new("bob", User::new("alice".to_string(), "a@x".to_string(), 8));
    assert_eq!(conversation.chat_id, "CHAT#alice#bob");
    assert_eq!(conversation.other_user.username, "alice");
    assert_eq!(conversation.last_message, None);
    assert_eq!(conversation.unread_count, 0);
}

#[test]
fn text_message_is_on_its_way() {
    let sent = Message::text_with_id(
        "hi".to_string(),
        "bob".to_string(),
        "alice",
        "id-1".to_string(),
        99,
    );
    assert_eq!(
        sent,
        Message {
            message_id: "id-1".to_string(),
            content: "hi".to_string(),
            sender: "bob".to_string(),
            timestamp: 99,
            status: MessageStatus::Sending,
            message_type: MessageType::Text,
            chat_id: "CHAT#alice#bob".to_string(),
        }
    );
    let fresh = Message::new_text("hi".to_string(), "bob".to_string(), "alice".to_string(), 99);
    let other = Message::new_text("hi".to_string(), "bob".to_string(), "alice".to_string(), 99);
    assert_eq!(fresh.message_id.chars().count(), 36);
    assert_ne!(fresh.message_id, other.message_id);
    assert_eq!(fresh.chat_id, "CHAT#alice#bob");
    assert_eq!(fresh.status, MessageStatus::Sending);
    assert_eq!(fresh.message_type, MessageType::Text);
    assert_eq!(fresh.timestamp, 99);
    assert_eq!(fresh.sender, "bob");
    assert_eq!(fresh.content, "hi");
}

#[test]
fn system_message_is_sent() {
    assert_eq!(
        Message::system_with_id("note".to_string(), "id-2".to_string(), 5),
        Message {
            message_id: "id-2".to_string(),
            content: "note".to_string(),
            sender: "system".to_string(),
            timestamp: 5,
            status: MessageStatus::Sent,
            message_type: MessageType::System,
            chat_id: "SYSTEM".to_string(),
        }
    );
    let fresh = Message::new_system("note".to_string(), 5);
    assert_eq!(fresh.message_id.chars().count(), 36);
    assert_eq!(fresh.sender, "system");
    assert_eq!(fresh.chat_id, "SYSTEM");
    assert_eq!(fresh.status, MessageStatus::Sent);
    assert_eq!(fresh.message_type, MessageType::System);
}

#[test]
fn message_from_server_data_is_a_sent_text() {
    let data = MessageData {
        message_id: "m".to_string(),
        content: "c".to_string(),
        sender: "s".to_string(),
        timestamp: 3,
        chat_id: "CHAT#a#s".to_string(),
    };
    assert_eq!(
        Message::from_message_data(data),
        Message {
            message_id: "m".to_string(),
            content: "c".to_string(),
            sender: "s".to_string(),
            timestamp: 3,
            status: MessageStatus::Sent,
            message_type: MessageType::Text,
            chat_id: "CHAT#a#s".to_string(),
        }
    );
}
