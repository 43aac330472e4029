use smart_review::chat::{ChatLine, ChatState, ChatStatus};
use smart_review::session::{Message, Session, SessionMeta};

fn session() -> Session {
    let mut session = Session::new(
        "1-0",
        "github.com/acme/service",
        141,
        "abc123",
        "deepseek/deepseek-v4-pro",
        None,
        100,
    );
    session.messages.push(Message::user("does it round?", 101));
    session
        .messages
        .push(Message::assistant("It does.", 102, None, Vec::new()));
    session
}

#[test]
fn a_stopped_answer_is_still_something_to_send_again() {
    let mut chat = ChatState {
        session: Some(session()),
        ..ChatState::default()
    };
    assert_eq!(chat.retry_question(), Some("does it round?".to_owned()));
    chat.pending = Some("and the discount?".to_owned());
    assert_eq!(chat.retry_question(), Some("and the discount?".to_owned()));
}

#[test]
fn sending_needs_something_to_send_and_nothing_in_flight() {
    let mut chat = ChatState::default();
    assert!(!chat.can_send(), "an empty box has nothing to send");
    chat.input.set_text("why?");
    assert!(chat.can_send());
    chat.status = ChatStatus::Sending {
        stage: "asking".to_owned(),
    };
    assert!(!chat.can_send(), "one answer at a time");
}

#[test]
fn the_answers_render_in_order_with_the_one_in_flight_last() {
    let mut chat = ChatState::default();
    assert_eq!(chat.messages(), Vec::new(), "nothing asked yet");
    chat.session = Some(session());
    assert_eq!(
        chat.messages(),
        vec![ChatLine::Stored(0), ChatLine::Stored(1)]
    );
    chat.status = ChatStatus::Streaming {
        stage: "asking".to_owned(),
    };
    assert_eq!(
        chat.messages(),
        vec![
            ChatLine::Stored(0),
            ChatLine::Stored(1),
            ChatLine::Streaming
        ]
    );
    chat.status = ChatStatus::Stopped;
    assert_eq!(chat.messages().len(), 3);
    chat.status = ChatStatus::Idle;
    assert_eq!(chat.messages().len(), 2, "once stored, it is the session's");
}

#[test]
fn starting_a_new_conversation_clears_the_pane_but_not_the_list() {
    let mut chat = ChatState {
        session: Some(session()),
        sessions: vec![SessionMeta::of(&session())],
        ..ChatState::default()
    };
    chat.input.set_text("half-typed");
    chat.reset();
    assert!(chat.session.is_none());
    assert_eq!(chat.sessions.len(), 1, "the old one is still openable");
    assert_eq!(chat.input.text(), "half-typed");
}

#[test]
fn the_status_says_what_is_happening_including_why_it_failed() {
    assert_eq!(ChatStatus::Idle.label(), "ready");
    assert_eq!(
        ChatStatus::Sending {
            stage: "asking deepseek-chat".to_owned()
        }
        .label(),
        "asking deepseek-chat"
    );
    assert_eq!(
        ChatStatus::Failed {
            reason: "401 Unauthorized".to_owned()
        }
        .label(),
        "failed: 401 Unauthorized"
    );
    assert!(ChatStatus::Stopped.label().contains("kept"));
    assert!(!ChatStatus::Stopped.is_running());
}

#[test]
fn a_failure_is_not_a_conversation_turn() {
    let chat = ChatState {
        session: Some(session()),
        status: ChatStatus::Failed {
            reason: "timeout".to_owned(),
        },
        ..ChatState::default()
    };
    assert_eq!(chat.messages().len(), 2);
    assert_eq!(chat.session.as_ref().expect("session").messages.len(), 2);
}

#[test]
fn the_totals_count_questions_and_tokens() {
    let chat = ChatState {
        session: Some(session()),
        ..ChatState::default()
    };
    assert_eq!(chat.totals().turns, 1);
    assert_eq!(chat.totals().tokens, 0);
    assert_eq!(ChatState::default().totals().turns, 0);
}
