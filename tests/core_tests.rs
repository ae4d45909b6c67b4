use prsnl_assistant::chat::{is_blank, ChatState};
use prsnl_assistant::connection::{ConnectionMachine, LinkAction, ReconnectPolicy};
use prsnl_assistant::conversation::{short_id_string, Conversation};
use prsnl_assistant::conversations::{ConversationsState, ViewState};
use prsnl_assistant::dispatch::{
    dispatch_server_message, message_from_record, parse_history_message, strip_metadata,
};
use prsnl_assistant::events::{AppEvent, EventBus};
use prsnl_assistant::media::{
    file_extension, get_mimetype_from_filename, mimetype_of_extension, selected_media_from_file,
    SelectedMedia,
};
use prsnl_assistant::outbound::{
    keep_alive_tick, prepare_chat, request_for_action, subscribe_request, TransportError,
};
use prsnl_assistant::protocol::{ConversationInfo, HistoryMessage, ImagePayload, WSClientMessage, WSServerMessage};
use prsnl_assistant::settings::SettingsState;
use prsnl_assistant::types::{ConnectionStatus, Message, MessageSender, MessageStatus};

fn record(role: &str, content: &str, timestamp: Option<i64>) -> HistoryMessage {
    HistoryMessage { role: role.to_string(), content: content.to_string(), timestamp }
}

fn info(id: &str, time: Option<i64>) -> ConversationInfo {
    ConversationInfo { id: id.to_string(), last_message: None, last_message_time: time, message_count: 0 }
}

#[test]
fn send_without_active_conversation_changes_nothing() {
    let mut chat = ChatState::new();
    let out = chat.send_message("hi".to_string(), None);
    assert!(out.is_none());
    assert!(chat.threads.is_empty());
    assert!(chat.pending_messages.is_empty());
    assert!(chat.current_conv_id.is_none());
}

#[test]
fn blank_send_without_image_is_ignored() {
    let mut chat = ChatState::new();
    chat.set_current_conversation(Some("c1".to_string()));
    assert!(chat.send_message("  \t\n".to_string(), None).is_none());
    assert!(chat.messages_for("c1").is_empty());
    assert!(is_blank(" \u{3000}\u{a0}"));
    assert!(!is_blank(" x "));
}

#[test]
fn blank_send_with_image_is_sent() {
    let mut chat = ChatState::new();
    chat.set_current_conversation(Some("c1".to_string()));
    let media = SelectedMedia {
        data: "AAAA".to_string(),
        mimetype: "image/png".to_string(),
        filename: "a.png".to_string(),
    };
    let out = chat.send_message(String::new(), Some(media)).unwrap();
    assert_eq!(out.image, Some(ImagePayload { data: "AAAA".to_string(), mimetype: "image/png".to_string() }));
    let msgs = chat.messages_for("c1");
    assert_eq!(msgs.len(), 1);
    assert_eq!(msgs[0].image.as_ref().unwrap().mimetype, "image/png");
}

#[test]
fn send_appends_sending_message_before_any_request() {
    let mut chat = ChatState::new();
    chat.set_current_conversation(Some("c1".to_string()));
    let out = chat.send_message("hi".to_string(), None).unwrap();
    let msgs = chat.messages_for("c1");
    assert_eq!(msgs.len(), 1);
    assert_eq!(msgs[0].status, MessageStatus::Sending);
    assert_eq!(msgs[0].body, "hi");
    assert!(chat.is_pending(&msgs[0].id));
    assert_eq!(out.conv_id, "c1");
    assert_eq!(out.text, "hi");
    match out.event {
        AppEvent::MessageSent { conv_id, message } => {
            assert_eq!(conv_id, "c1");
            assert_eq!(message.id, msgs[0].id);
        }
        _ => panic!("expected MessageSent"),
    }
}

#[test]
fn received_message_clears_most_recent_pending() {
    let mut chat = ChatState::new();
    chat.set_current_conversation(Some("c1".to_string()));
    chat.send_message("one".to_string(), None).unwrap();
    chat.send_message("two".to_string(), None).unwrap();
    let ids: Vec<String> = chat.messages_for("c1").iter().map(|m| m.id.clone()).collect();
    chat.set_typing("c1", true);
    assert!(chat.is_typing());
    let reply = Message::new_assistant("r1".to_string(), "answer".to_string(), None);
    chat.apply_event(AppEvent::MessageReceived { conv_id: "c1".to_string(), message: reply });
    assert!(!chat.is_pending(&ids[1]));
    assert!(chat.is_pending(&ids[0]));
    assert!(!chat.is_typing());
    let msgs = chat.messages_for("c1");
    assert_eq!(msgs.len(), 3);
    assert_eq!(msgs[1].status, MessageStatus::Delivered);
    assert_eq!(msgs[0].status, MessageStatus::Sending);
    assert_eq!(msgs[2].id, "r1");
}

#[test]
fn message_error_clears_pending_and_marks_message() {
    let mut chat = ChatState::new();
    chat.set_current_conversation(Some("c1".to_string()));
    chat.send_message("one".to_string(), None).unwrap();
    let id = chat.messages_for("c1")[0].id.clone();
    chat.apply_event(AppEvent::MessageError {
        conv_id: "c1".to_string(),
        msg_id: id.clone(),
        error: "boom".to_string(),
    });
    assert!(!chat.is_pending(&id));
    assert_eq!(chat.messages_for("c1")[0].status, MessageStatus::Error("boom".to_string()));
}

#[test]
fn typing_only_for_current_conversation() {
    let mut chat = ChatState::new();
    chat.set_current_conversation(Some("c1".to_string()));
    chat.set_typing("c2", true);
    assert!(!chat.is_typing());
    chat.apply_event(AppEvent::TypingChanged { conv_id: "c1".to_string(), is_typing: true });
    assert!(chat.is_typing());
    chat.apply_event(AppEvent::NavigateToList);
    assert!(chat.current_conv_id().is_none());
    assert!(!chat.is_typing());
}

#[test]
fn history_load_replaces_messages() {
    let mut chat = ChatState::new();
    let m1 = Message::new_system("m1".to_string());
    let m2 = Message::new_system("m2".to_string());
    let m3 = Message::new_system("m3".to_string());
    chat.set_history("c", vec![m1, m2]);
    assert_eq!(chat.messages_for("c").len(), 2);
    chat.set_history("c", vec![m3]);
    let msgs = chat.messages_for("c");
    assert_eq!(msgs.len(), 1);
    assert_eq!(msgs[0].body, "m3");
}

#[test]
fn deleted_conversation_is_cleared_from_chat() {
    let mut chat = ChatState::new();
    chat.set_current_conversation(Some("c".to_string()));
    chat.send_message("x".to_string(), None).unwrap();
    chat.apply_event(AppEvent::ConversationDeleted("c".to_string()));
    assert!(chat.messages_for("c").is_empty());
    assert!(chat.current_conv_id().is_none());
}

#[test]
fn connect_then_handshake_sends_two_bootstrap_requests_first() {
    let mut m = ConnectionMachine::new(ReconnectPolicy::standard());
    let a = m.connect();
    assert_eq!(a, vec![LinkAction::Publish(ConnectionStatus::Connecting), LinkAction::Dial]);
    let b = m.handshake_succeeded();
    assert_eq!(
        b,
        vec![
            LinkAction::Publish(ConnectionStatus::Connected),
            LinkAction::SendSubscribe,
            LinkAction::SendListConversations,
            LinkAction::StartKeepAlive,
            LinkAction::ReadMessages,
        ]
    );
    assert!(m.is_connected());
    let requests: Vec<WSClientMessage> = b.iter().filter_map(|a| request_for_action(*a)).collect();
    assert_eq!(requests.len(), 2);
    assert!(matches!(requests[0], WSClientMessage::Subscribe { .. }));
    assert!(matches!(requests[1], WSClientMessage::ListConversations { .. }));
}

#[test]
fn connect_is_not_reentered_while_running() {
    let mut m = ConnectionMachine::new(ReconnectPolicy::standard());
    m.connect();
    assert!(m.connect().is_empty());
}

#[test]
fn backoff_doubles_up_to_cap_then_gives_up() {
    let mut m = ConnectionMachine::new(ReconnectPolicy::standard());
    m.connect();
    let mut waits = Vec::new();
    for _ in 0..5 {
        let a = m.connection_lost();
        assert_eq!(a[0], LinkAction::Publish(ConnectionStatus::Disconnected));
        assert_eq!(a[1], LinkAction::Publish(ConnectionStatus::Connecting));
        match a[2] {
            LinkAction::Wait(d) => waits.push(d),
            _ => panic!("expected a wait"),
        }
        assert_eq!(a[3], LinkAction::Dial);
    }
    assert_eq!(waits, vec![1000, 2000, 4000, 8000, 16000]);
    let last = m.connection_lost();
    assert_eq!(last, vec![LinkAction::Publish(ConnectionStatus::Disconnected), LinkAction::GiveUp(5)]);
}

#[test]
fn backoff_is_capped() {
    let policy = ReconnectPolicy { max_attempts: 5, initial_delay: 1000, max_delay: 3000 };
    let mut m = ConnectionMachine::new(policy);
    m.connect();
    let mut waits = Vec::new();
    for _ in 0..4 {
        if let LinkAction::Wait(d) = m.connection_lost()[2] {
            waits.push(d);
        }
    }
    assert_eq!(waits, vec![1000, 2000, 3000, 3000]);
}

#[test]
fn success_resets_backoff() {
    let mut m = ConnectionMachine::new(ReconnectPolicy::standard());
    m.connect();
    m.connection_lost();
    m.connection_lost();
    m.handshake_succeeded();
    let a = m.connection_lost();
    assert_eq!(a[2], LinkAction::Wait(1000));
}

#[test]
fn disconnect_twice_publishes_disconnected_once() {
    let mut m = ConnectionMachine::new(ReconnectPolicy::standard());
    m.connect();
    m.handshake_succeeded();
    let first = m.disconnect();
    let second = m.disconnect();
    assert_eq!(first, vec![LinkAction::SendClose, LinkAction::Publish(ConnectionStatus::Disconnected)]);
    assert!(second.is_empty());
    assert!(!m.is_connected());
    let after = m.connection_lost();
    assert_eq!(after, vec![LinkAction::Stop]);
}

#[test]
fn disconnect_during_retry_stops() {
    let mut m = ConnectionMachine::new(ReconnectPolicy::standard());
    m.connect();
    m.connection_lost();
    assert_eq!(m.disconnect(), vec![LinkAction::Publish(ConnectionStatus::Disconnected)]);
    assert_eq!(m.connection_lost(), vec![LinkAction::Stop]);
}

#[test]
fn handshake_after_disconnect_closes_and_stops() {
    let mut m = ConnectionMachine::new(ReconnectPolicy::standard());
    m.connect();
    m.connection_lost();
    m.disconnect();
    assert_eq!(m.handshake_succeeded(), vec![LinkAction::SendClose, LinkAction::Stop]);
    assert!(!m.is_connected());
    assert!(!m.running);
}

#[test]
fn disconnect_after_giving_up_publishes_once() {
    let mut m = ConnectionMachine::new(ReconnectPolicy::standard());
    m.connect();
    for _ in 0..6 {
        m.connection_lost();
    }
    assert_eq!(m.status, ConnectionStatus::Disconnected);
    assert_eq!(m.disconnect(), vec![LinkAction::Publish(ConnectionStatus::Disconnected)]);
    assert!(m.disconnect().is_empty());
}

#[test]
fn sent_message_is_no_longer_pending() {
    let mut c = Conversation::new("c".to_string(), None);
    let m = Message::new_user("x".to_string());
    let id = m.id.clone();
    c.add_user_message(m);
    c.mark_message_sent(&id);
    assert_eq!(c.messages[0].status, MessageStatus::Sent);
    assert!(!c.pending_messages.contains(&id));
}

#[test]
fn history_user_record_loses_metadata_header() {
    let msg = WSServerMessage::History {
        id: "h".to_string(),
        timestamp: 0,
        conversation_id: "c".to_string(),
        messages: vec![record("user", "Current Date: X\nBody: hello", None)],
    };
    match dispatch_server_message(msg) {
        Some(AppEvent::HistoryLoaded { conv_id, messages }) => {
            assert_eq!(conv_id, "c");
            assert_eq!(messages.len(), 1);
            assert_eq!(messages[0].body, "hello");
            assert_eq!(messages[0].sender, MessageSender::User);
            assert_eq!(messages[0].status, MessageStatus::Delivered);
        }
        _ => panic!("expected HistoryLoaded"),
    }
}

#[test]
fn history_drops_unknown_roles_and_keeps_order() {
    let msg = WSServerMessage::History {
        id: "h".to_string(),
        timestamp: 0,
        conversation_id: "c".to_string(),
        messages: vec![
            record("assistant", "a", Some(5)),
            record("tool", "t", None),
            record("system", "s", None),
        ],
    };
    match dispatch_server_message(msg) {
        Some(AppEvent::HistoryLoaded { messages, .. }) => {
            assert_eq!(messages.len(), 2);
            assert_eq!(messages[0].body, "a");
            assert_eq!(messages[0].timestamp, 5);
            assert_eq!(messages[1].sender, MessageSender::System);
        }
        _ => panic!("expected HistoryLoaded"),
    }
}

#[test]
fn metadata_strip_cases() {
    assert_eq!(strip_metadata("Current Date: d\nCurrent Time: t\nFrom: f\nBody: hi there"), "hi there");
    assert_eq!(strip_metadata("Current Date: d\r\nBody: crlf\r\nmore"), "crlf");
    assert_eq!(strip_metadata("Current Date: d\nno body line"), "Current Date: d\nno body line");
    assert_eq!(strip_metadata("Body: plain"), "Body: plain");
    assert_eq!(strip_metadata("Current Date: d\nBody: first\nBody: second"), "first");
    assert_eq!(strip_metadata(""), "");
}

#[test]
fn assistant_history_records_keep_header() {
    let h = record("assistant", "Current Date: X\nBody: hello", Some(7));
    let m = message_from_record(&h, "id".to_string(), 7).unwrap();
    assert_eq!(m.body, "Current Date: X\nBody: hello");
    assert_eq!(m.id, "id");
    assert!(parse_history_message(&record("bot", "x", None)).is_none());
    assert_eq!(parse_history_message(&h).unwrap().id.len(), 36);
}

#[test]
fn conversations_list_sorted_by_recency() {
    let msg = WSServerMessage::ConversationsList {
        id: "l".to_string(),
        timestamp: 0,
        conversations: vec![info("a-100", Some(100)), info("b-200", Some(200)), info("c-none", None)],
    };
    let event = dispatch_server_message(msg).unwrap();
    let mut state = ConversationsState::new();
    assert!(state.is_loading());
    state.apply_event(event);
    assert!(!state.is_loading());
    let sorted = state.sorted_conversations();
    assert_eq!(sorted.len(), 3);
    assert_eq!(sorted[0].id, "b-200");
    assert_eq!(sorted[1].id, "a-100");
    assert_eq!(sorted[2].id, "c-none");
}

#[test]
fn conversations_list_entries_become_conversations() {
    let msg = WSServerMessage::ConversationsList {
        id: "l".to_string(),
        timestamp: 0,
        conversations: vec![ConversationInfo {
            id: "native-abc12345xyz-def6".to_string(),
            last_message: Some("last".to_string()),
            last_message_time: Some(1699999999000),
            message_count: 4,
        }],
    };
    match dispatch_server_message(msg) {
        Some(AppEvent::ConversationsLoaded(cs)) => {
            assert_eq!(cs.len(), 1);
            assert_eq!(cs[0].title, "Chat abc12345");
            assert_eq!(cs[0].last_message_time, Some(1699999999000));
            assert_eq!(cs[0].message_count, 4);
            assert!(cs[0].messages.is_empty());
        }
        _ => panic!("expected ConversationsLoaded"),
    }
}

#[test]
fn unrepresentable_time_is_dropped() {
    let c = Conversation::from_server("x".to_string(), None, Some(i64::MAX), 0);
    assert_eq!(c.last_message_time, None);
}

#[test]
fn short_ids() {
    assert_eq!(short_id_string("native-abc12345-def6-7890"), "abc12345");
    assert_eq!(short_id_string("abcdefghijk"), "abcdefgh");
    assert_eq!(short_id_string("x-yz"), "yz");
    assert_eq!(short_id_string("x-"), "");
    assert_eq!(short_id_string(""), "");
}

#[test]
fn response_and_error_dispatch() {
    let resp = WSServerMessage::Response {
        id: "r".to_string(),
        timestamp: 1,
        reply_to: "m".to_string(),
        conversation_id: Some("c".to_string()),
        body: "b".to_string(),
        image: Some(ImagePayload { data: "d".to_string(), mimetype: "image/gif".to_string() }),
    };
    match dispatch_server_message(resp) {
        Some(AppEvent::MessageReceived { conv_id, message }) => {
            assert_eq!(conv_id, "c");
            assert_eq!(message.id, "r");
            assert_eq!(message.sender, MessageSender::Assistant);
            assert_eq!(message.image.unwrap().mimetype, "image/gif");
        }
        _ => panic!("expected MessageReceived"),
    }
    let no_conv = WSServerMessage::Response {
        id: "r".to_string(),
        timestamp: 1,
        reply_to: "m".to_string(),
        conversation_id: None,
        body: "b".to_string(),
        image: None,
    };
    assert!(dispatch_server_message(no_conv).is_none());
    let err = WSServerMessage::Error {
        id: "e".to_string(),
        timestamp: 1,
        reply_to: Some("m".to_string()),
        conversation_id: Some("c".to_string()),
        code: "x".to_string(),
        message: "bad".to_string(),
    };
    match dispatch_server_message(err) {
        Some(AppEvent::MessageError { conv_id, msg_id, error }) => {
            assert_eq!((conv_id.as_str(), msg_id.as_str(), error.as_str()), ("c", "m", "bad"));
        }
        _ => panic!("expected MessageError"),
    }
    let err_no_reply = WSServerMessage::Error {
        id: "e".to_string(),
        timestamp: 1,
        reply_to: None,
        conversation_id: Some("c".to_string()),
        code: "x".to_string(),
        message: "bad".to_string(),
    };
    assert!(dispatch_server_message(err_no_reply).is_none());
}

#[test]
fn other_dispatches() {
    let pong = WSServerMessage::Pong { id: "p".to_string(), timestamp: 0 };
    assert!(dispatch_server_message(pong).is_none());
    let note = WSServerMessage::Notification {
        id: "n".to_string(),
        timestamp: 0,
        title: "t".to_string(),
        body: "b".to_string(),
        category: "c".to_string(),
    };
    assert!(dispatch_server_message(note).is_none());
    let typing = WSServerMessage::Typing {
        id: "t".to_string(),
        timestamp: 0,
        reply_to: "m".to_string(),
        conversation_id: Some("c".to_string()),
        is_typing: true,
    };
    assert!(matches!(
        dispatch_server_message(typing),
        Some(AppEvent::TypingChanged { is_typing: true, .. })
    ));
    let created = WSServerMessage::ConversationCreated {
        id: "x".to_string(),
        timestamp: 0,
        conversation_id: "c9".to_string(),
        title: None,
    };
    match dispatch_server_message(created) {
        Some(AppEvent::ConversationCreated { id, title }) => {
            assert_eq!(id, "c9");
            assert!(title.is_none());
        }
        _ => panic!("expected ConversationCreated"),
    }
    let deleted = WSServerMessage::ConversationDeleted {
        id: "x".to_string(),
        timestamp: 0,
        conversation_id: "c9".to_string(),
    };
    assert!(matches!(dispatch_server_message(deleted), Some(AppEvent::ConversationDeleted(ref id)) if id == "c9"));
}

#[test]
fn conversations_state_events() {
    let mut s = ConversationsState::new();
    s.apply_event(AppEvent::ConversationCreated { id: "c1".to_string(), title: None });
    assert_eq!(s.view(), ViewState::Chat("c1".to_string()));
    assert_eq!(s.get_conversation("c1").unwrap().title, "New Chat");
    let ev = s.go_back();
    assert!(matches!(ev, AppEvent::NavigateToList));
    let (ev, request) = s.select_conversation("c1");
    assert!(matches!(ev, AppEvent::ConversationSelected(ref id) if id == "c1"));
    match request {
        WSClientMessage::GetHistory { conversation_id, limit, .. } => {
            assert_eq!(conversation_id, "c1");
            assert_eq!(limit, Some(50));
        }
        _ => panic!("expected a history request"),
    }
    assert_eq!(s.current_conversation_id(), Some("c1".to_string()));
    s.apply_event(AppEvent::ConversationDeleted("c1".to_string()));
    assert!(s.get_conversation("c1").is_none());
    assert_eq!(s.view(), ViewState::ConversationList);
}

#[test]
fn list_merge_replaces_same_id() {
    let mut s = ConversationsState::new();
    s.upsert_conversation(Conversation::new("a".to_string(), Some("Mine".to_string())));
    s.set_conversations(vec![
        Conversation::from_server("a".to_string(), None, Some(1), 3),
        Conversation::from_server("b".to_string(), None, None, 0),
    ]);
    assert_eq!(s.conversations.len(), 2);
    assert_eq!(s.get_conversation("a").unwrap().message_count, 3);
}

#[test]
fn event_bus_fans_out_in_order() {
    let mut bus: EventBus<u32> = EventBus::new();
    bus.publish(0);
    let a = bus.subscribe();
    bus.publish(1);
    let b = bus.subscribe();
    bus.publish(2);
    assert_eq!(bus.peek(a), Some(&1));
    bus.advance(a);
    assert_eq!(bus.peek(a), Some(&2));
    bus.advance(a);
    assert_eq!(bus.peek(a), None);
    bus.compact();
    assert_eq!(bus.peek(b), Some(&2));
    bus.advance(b);
    bus.advance(b);
    assert_eq!(bus.peek(b), None);
}

#[test]
fn mimetypes() {
    assert_eq!(get_mimetype_from_filename("photo.JPG"), "image/jpeg");
    assert_eq!(get_mimetype_from_filename("a.b.PNG"), "image/png");
    assert_eq!(get_mimetype_from_filename("pic.svg"), "image/svg+xml");
    assert_eq!(get_mimetype_from_filename("noext"), "application/octet-stream");
    assert_eq!(get_mimetype_from_filename("gif"), "image/gif");
    assert_eq!(mimetype_of_extension("webp"), "image/webp");
    assert_eq!(mimetype_of_extension("WEBP"), "application/octet-stream");
    assert_eq!(file_extension("a.tar.gz"), "gz");
    assert_eq!(file_extension("trailing."), "");
}

#[test]
fn picked_file_is_encoded() {
    let m = selected_media_from_file(&b"hi".to_vec(), "x.BMP".to_string(), String::new());
    assert_eq!(m.data, "aGk=");
    assert_eq!(m.mimetype, "image/bmp");
    let m = selected_media_from_file(&vec![0u8, 1, 2], "x.png".to_string(), "image/custom".to_string());
    assert_eq!(m.data, "AAEC");
    assert_eq!(m.mimetype, "image/custom");
}

#[test]
fn requests_need_a_connection() {
    let mut m = ConnectionMachine::new(ReconnectPolicy::standard());
    let r = prepare_chat(&m, "c".to_string(), "t".to_string(), None);
    assert_eq!(r.unwrap_err(), TransportError::NotConnected);
    assert!(keep_alive_tick(&m).is_none());
    m.connect();
    m.handshake_succeeded();
    let (msg, id) = prepare_chat(&m, "c".to_string(), "t".to_string(), None).unwrap();
    assert_eq!(id.len(), 36);
    match msg {
        WSClientMessage::Chat { id: mid, conversation_id, body, reply_to, .. } => {
            assert_eq!(mid, id);
            assert_eq!(conversation_id, "c");
            assert_eq!(body, "t");
            assert!(reply_to.is_none());
        }
        _ => panic!("expected a chat request"),
    }
    assert!(matches!(keep_alive_tick(&m), Some(WSClientMessage::Ping { .. })));
    match subscribe_request() {
        WSClientMessage::Subscribe { events, .. } => {
            assert_eq!(events, vec!["notifications".to_string(), "reminders".to_string()]);
        }
        _ => panic!("expected subscribe"),
    }
}

#[test]
fn settings_update() {
    let mut s = SettingsState::new();
    assert_eq!(s.server_url(), "ws://10.8.0.8:8765/ws");
    s.toggle_modal();
    assert!(s.is_modal_open());
    let ev = s.update_server_url("ws://h/ws".to_string());
    assert!(!s.is_modal_open());
    assert!(matches!(ev, AppEvent::ServerUrlChanged(ref u) if u == "ws://h/ws"));
    s.apply_event(&AppEvent::SettingsModalToggled(true));
    assert!(s.is_modal_open());
}

#[test]
fn app_state_reconciliation() {
    let mut state = AppState::new();
    state.create_conversation("c".to_string(), None);
    let msg = Message::new_user("q".to_string());
    let id = msg.id.clone();
    let mut conv = state.get_conversation("c").unwrap();
    conv.add_user_message(msg);
    state.upsert_conversation(conv);
    state.add_response_to_conversation("c", &id, Message::new_assistant("r".to_string(), "a".to_string(), None));
    let c = state.get_conversation("c").unwrap();
    assert!(c.pending_messages.is_empty());
    assert_eq!(c.messages[0].status, MessageStatus::Delivered);
    assert_eq!(c.last_message_preview, Some("a".to_string()));
    assert_eq!(state.current_conversation().unwrap().id, "c");
    assert_eq!(state.current_conversation_id(), Some("c"));
    state.set_conversation_history("c", vec![]);
    assert!(state.get_conversation("c").unwrap().messages.is_empty());
}

use prsnl_assistant::app_state::AppState;

#[test]
fn representable_time_bounds() {
    let max = 8210266876799999i64;
    let min = -8334601228800000i64;
    assert_eq!(Conversation::from_server("x".to_string(), None, Some(max), 0).last_message_time, Some(max));
    assert_eq!(Conversation::from_server("x".to_string(), None, Some(max + 1), 0).last_message_time, None);
    assert_eq!(Conversation::from_server("x".to_string(), None, Some(min), 0).last_message_time, Some(min));
    assert_eq!(Conversation::from_server("x".to_string(), None, Some(min - 1), 0).last_message_time, None);
    assert_eq!(Conversation::from_server("x".to_string(), None, None, 0).last_message_time, None);
    let m = parse_history_message(&record("system", "s", Some(max))).unwrap();
    assert_eq!(m.timestamp, max);
}

#[test]
fn app_state_applies_server_messages() {
    let mut state = AppState::new();
    state.apply_server_message(WSServerMessage::ConversationCreated {
        id: "x".to_string(),
        timestamp: 0,
        conversation_id: "c".to_string(),
        title: Some("T".to_string()),
    });
    assert!(matches!(state.view, ViewState::Chat(ref id) if id == "c"));
    let mut conv = state.get_conversation("c").unwrap();
    let msg = Message::new_user("q".to_string());
    let id = msg.id.clone();
    conv.add_user_message(msg);
    state.upsert_conversation(conv);
    state.apply_server_message(WSServerMessage::Typing {
        id: "t".to_string(),
        timestamp: 0,
        reply_to: id.clone(),
        conversation_id: Some("c".to_string()),
        is_typing: true,
    });
    assert!(state.is_typing);
    state.apply_server_message(WSServerMessage::Typing {
        id: "t".to_string(),
        timestamp: 0,
        reply_to: id.clone(),
        conversation_id: Some("other".to_string()),
        is_typing: false,
    });
    assert!(state.is_typing);
    state.apply_server_message(WSServerMessage::Response {
        id: "r".to_string(),
        timestamp: 0,
        reply_to: id.clone(),
        conversation_id: Some("c".to_string()),
        body: "a".to_string(),
        image: None,
    });
    let c = state.get_conversation("c").unwrap();
    assert!(c.pending_messages.is_empty());
    assert_eq!(c.messages.len(), 2);
    assert_eq!(c.messages[0].status, MessageStatus::Delivered);
    assert_eq!(c.messages[1].id, "r");
    state.apply_server_message(WSServerMessage::ConversationsList {
        id: "l".to_string(),
        timestamp: 0,
        conversations: vec![info("d-1", Some(3))],
    });
    assert!(!state.loading_conversations);
    assert!(state.has_conversation("d-1"));
    state.apply_server_message(WSServerMessage::History {
        id: "h".to_string(),
        timestamp: 0,
        conversation_id: "c".to_string(),
        messages: vec![record("user", "Current Date: X\nBody: hello", Some(9))],
    });
    let c = state.get_conversation("c").unwrap();
    assert_eq!(c.messages.len(), 1);
    assert_eq!(c.messages[0].body, "hello");
    state.apply_server_message(WSServerMessage::ConversationDeleted {
        id: "x".to_string(),
        timestamp: 0,
        conversation_id: "c".to_string(),
    });
    assert!(!state.has_conversation("c"));
    assert!(matches!(state.view, ViewState::ConversationList));
}
