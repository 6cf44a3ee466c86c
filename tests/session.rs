use gpt_tui::chat::{Chatter, MessageOrder};
use gpt_tui::session::{AppState, CurrentScreen, InputEvent, Reaction, SessionError};

fn app() -> AppState {
    AppState::new(vec!["gpt-4o-mini".to_string(), "gpt-4o".to_string(), "gpt-4".to_string()])
}

fn chat_app() -> AppState {
    let mut a = app();
    a.load_api_key("sk-test");
    assert!(a.new_chat().is_ok());
    a
}

fn type_text(a: &mut AppState, text: &str) {
    for c in text.chars() {
        assert!(matches!(a.handle_event(InputEvent::Char(c)), Reaction::Stay));
    }
}

fn transcript(a: &AppState) -> Vec<(Chatter, String)> {
    a.chat_menu().messages().iter().map(|m| (m.role, m.message.clone())).collect()
}

#[test]
fn starts_on_main_menu() {
    let a = app();
    assert_eq!(a.current_screen(), CurrentScreen::MainMenu);
    assert!(a.api_key().is_none());
    assert!(!a.pending_request());
    assert_eq!(a.chat_menu().len(), 0);
    assert_eq!(a.models().selected_index(), 0);
}

#[test]
fn start_chat_needs_credential() {
    let mut a = app();
    match a.handle_event(InputEvent::Char('n')) {
        Reaction::Refused(e) => assert_eq!(e, SessionError::MissingCredential),
        _ => panic!("start without a credential was not refused"),
    }
    assert_eq!(a.current_screen(), CurrentScreen::MainMenu);
    assert_eq!(a.new_chat(), Err(SessionError::MissingCredential));
    assert_eq!(a.current_screen(), CurrentScreen::MainMenu);

    a.load_api_key("sk-test\n");
    match a.handle_event(InputEvent::Char('n')) {
        Reaction::OpenSession(i) => assert_eq!(i, 0),
        _ => panic!("start with a credential did not open a session"),
    }
    assert_eq!(a.current_screen(), CurrentScreen::Chat);
    assert_eq!(a.chat_menu().len(), 0);
    assert_eq!(a.chat_menu().text_area().content(), "");
    assert_eq!(a.chat_menu().text_area().cursor(), 0);
}

#[test]
fn load_api_key_trims_whitespace() {
    let mut a = app();
    a.load_api_key("  sk-abc 123 \n");
    assert_eq!(a.api_key().map(|k| k.as_str()), Some("sk-abc 123"));
}

#[test]
fn submit_appends_human_message_and_clears_draft() {
    let mut a = chat_app();
    type_text(&mut a, "hello");
    assert_eq!(a.send_message(), Some("hello".to_string()));
    assert_eq!(transcript(&a), vec![(Chatter::Human, "hello".to_string())]);
    assert_eq!(a.chat_menu().text_area().content(), "");
    assert_eq!(a.chat_menu().text_area().cursor(), 0);
    assert!(a.pending_request());
}

#[test]
fn second_submit_ignored_while_request_in_flight() {
    let mut a = chat_app();
    type_text(&mut a, "one");
    assert!(matches!(a.handle_event(InputEvent::Enter), Reaction::Dispatch(t) if t == "one"));
    type_text(&mut a, "two");
    assert!(matches!(a.handle_event(InputEvent::Enter), Reaction::Stay));
    assert_eq!(a.send_message(), None);
    assert_eq!(transcript(&a), vec![(Chatter::Human, "one".to_string())]);
    assert_eq!(a.chat_menu().text_area().content(), "two");

    assert!(a.receive_reply(&vec!["first".to_string()]));
    assert!(matches!(a.handle_event(InputEvent::Enter), Reaction::Dispatch(t) if t == "two"));
    assert_eq!(
        transcript(&a),
        vec![
            (Chatter::Human, "one".to_string()),
            (Chatter::AI, "first".to_string()),
            (Chatter::Human, "two".to_string()),
        ]
    );
}

#[test]
fn chat_round_trip() {
    let mut a = chat_app();
    type_text(&mut a, "hi");
    match a.handle_event(InputEvent::Enter) {
        Reaction::Dispatch(t) => assert_eq!(t, "hi"),
        _ => panic!("submit did not dispatch"),
    }
    assert_eq!(transcript(&a), vec![(Chatter::Human, "hi".to_string())]);
    assert!(a.receive_reply(&vec!["hello!".to_string()]));
    assert_eq!(
        transcript(&a),
        vec![(Chatter::Human, "hi".to_string()), (Chatter::AI, "hello!".to_string())]
    );
    assert!(!a.pending_request());
}

#[test]
fn reply_joins_all_choices() {
    let mut a = chat_app();
    type_text(&mut a, "q");
    assert!(a.send_message().is_some());
    assert!(a.receive_reply(&vec!["Hel".to_string(), "lo".to_string(), String::new(), "!".to_string()]));
    assert_eq!(a.chat_menu().messages()[1].message, "Hello!");
    assert_eq!(a.chat_menu().messages()[1].role, Chatter::AI);
}

#[test]
fn reply_without_request_is_ignored() {
    let mut a = chat_app();
    assert!(!a.receive_reply(&vec!["stray".to_string()]));
    assert_eq!(a.chat_menu().len(), 0);
}

#[test]
fn empty_submission_appends_empty_message() {
    let mut a = chat_app();
    assert_eq!(a.send_message(), Some(String::new()));
    assert_eq!(transcript(&a), vec![(Chatter::Human, String::new())]);
}

#[test]
fn submit_off_chat_screen_does_nothing() {
    let mut a = app();
    a.load_api_key("k");
    assert_eq!(a.send_message(), None);
    assert!(matches!(a.handle_event(InputEvent::Enter), Reaction::Stay));
    assert_eq!(a.chat_menu().len(), 0);
}

#[test]
fn main_menu_keys() {
    let mut a = app();
    assert!(matches!(a.handle_event(InputEvent::Tab), Reaction::Stay));
    assert_eq!(a.models().selected_index(), 1);
    assert_eq!(a.models().selected_name(), "gpt-4o");
    a.cycle_model();
    a.cycle_model();
    assert_eq!(a.models().selected_index(), 0);
    assert!(matches!(a.handle_event(InputEvent::Char('x')), Reaction::Stay));
    assert!(matches!(a.handle_event(InputEvent::Char('q')), Reaction::Quit));
}

#[test]
fn chat_keys_edit_scroll_and_leave() {
    let mut a = chat_app();
    type_text(&mut a, "abc");
    a.handle_event(InputEvent::Left);
    a.handle_event(InputEvent::Backspace);
    assert_eq!(a.chat_menu().text_area().content(), "ac");
    a.handle_event(InputEvent::Right);
    a.handle_event(InputEvent::Tab);
    assert_eq!(a.chat_menu().text_area().content(), "ac");
    assert_eq!(a.chat_menu().text_area().cursor(), 2);

    a.sync_content_length(3);
    a.handle_event(InputEvent::Down);
    a.handle_event(InputEvent::ScrollDown);
    a.handle_event(InputEvent::ScrollDown);
    assert_eq!(a.scroll().offset(), 2);
    a.handle_event(InputEvent::Up);
    a.move_row_start_up();
    a.handle_event(InputEvent::ScrollUp);
    assert_eq!(a.scroll().offset(), 0);
    a.move_row_start_down();
    assert_eq!(a.scroll().offset(), 1);

    a.handle_event(InputEvent::Esc);
    assert_eq!(a.current_screen(), CurrentScreen::MainMenu);
    a.leave_chat();
    assert_eq!(a.current_screen(), CurrentScreen::MainMenu);
}

#[test]
fn submit_resets_scroll() {
    let mut a = chat_app();
    a.sync_content_length(10);
    a.move_row_start_down();
    a.move_row_start_down();
    assert_eq!(a.scroll().offset(), 2);
    type_text(&mut a, "x");
    a.handle_event(InputEvent::Enter);
    assert_eq!(a.scroll().offset(), 0);
}

#[test]
fn new_chat_discards_previous_session() {
    let mut a = chat_app();
    type_text(&mut a, "x");
    a.send_message();
    a.handle_event(InputEvent::Esc);
    assert!(matches!(a.handle_event(InputEvent::Char('n')), Reaction::OpenSession(0)));
    assert_eq!(a.chat_menu().len(), 0);
    assert!(!a.pending_request());
}

#[test]
fn transcript_walks_in_both_orders() {
    let mut a = chat_app();
    type_text(&mut a, "a");
    a.send_message();
    a.receive_reply(&vec!["b".to_string()]);
    let chat = a.chat_menu();
    assert_eq!(chat.message_at(MessageOrder::OldestFirst, 0).message, "a");
    assert_eq!(chat.message_at(MessageOrder::OldestFirst, 1).message, "b");
    assert_eq!(chat.message_at(MessageOrder::NewestFirst, 0).message, "b");
    assert_eq!(chat.message_at(MessageOrder::NewestFirst, 1).role, Chatter::Human);
}

#[test]
fn enter_char_applies_edit_ops() {
    let mut a = chat_app();
    a.enter_char(gpt_tui::editor::EditOp::Insert('z'));
    a.enter_char(gpt_tui::editor::EditOp::Insert('日'));
    a.enter_char(gpt_tui::editor::EditOp::DeleteBefore);
    assert_eq!(a.chat_menu().text_area().content(), "z");
}

#[test]
fn new_chat_keeps_content_length_and_selection() {
    let mut a = app();
    a.cycle_model();
    a.sync_content_length(3);
    a.load_api_key("k");
    assert!(a.new_chat().is_ok());
    assert_eq!(a.scroll().content_length(), 3);
    assert_eq!(a.scroll().offset(), 0);
    assert_eq!(a.models().selected_index(), 1);
    assert_eq!(a.api_key().map(|k| k.as_str()), Some("k"));
}
