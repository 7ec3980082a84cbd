use chat_client::frame::{AuthMessage, CommandMessage, FileMessage, Message, TextMessage};
use chat_client::namer::generate_dm_name;
use chat_client::outbox::Outbox;
use chat_client::reader::{quit_status, render_text, Failure, Inbound, Reader, ReaderAction};
use chat_client::session::{split_on_spaces, Action, Phase, Session};
use chat_client::writer::{frame_line, write_failure, WriteOutcome};

fn text(body: &str) -> Message {
    Message::Text(TextMessage {
        username: "alice".to_owned(),
        auth_token: "T1".to_owned(),
        body: body.to_owned(),
        channel: "general".to_owned(),
        embed_pointer: None,
        embed_type: None,
        message_id: None,
        timestamp: 0,
    })
}

fn ready_session() -> Session {
    let mut s = Session::new("alice".to_owned());
    assert!(s.on_token("T1".to_owned()));
    s
}

fn dm_parts(name: &str) -> Vec<u64> {
    let mut parts = name.split('_');
    assert_eq!(parts.next(), Some("DM"));
    parts.map(|p| p.parse::<u64>().unwrap()).collect()
}

#[test]
fn dm_name_ignores_order_of_two() {
    assert_eq!(generate_dm_name(&["alice", "bob"]), generate_dm_name(&["bob", "alice"]));
}

#[test]
fn dm_name_ignores_order_of_three() {
    let a = generate_dm_name(&["alice", "bob", "carol"]);
    assert_eq!(a, generate_dm_name(&["carol", "alice", "bob"]));
    assert_eq!(a, generate_dm_name(&["bob", "carol", "alice"]));
}

#[test]
fn dm_name_is_repeatable() {
    let first = generate_dm_name(&["alice", "bob"]);
    let second = generate_dm_name(&["alice", "bob"]);
    assert_eq!(first, second);
}

#[test]
fn dm_name_trims_participants() {
    assert_eq!(generate_dm_name(&[" alice\n", "bob "]), generate_dm_name(&["alice", "bob"]));
}

#[test]
fn dm_name_shape() {
    let name = generate_dm_name(&["alice", "bob", "carol"]);
    assert!(name.starts_with("DM_"));
    let parts = dm_parts(&name);
    assert_eq!(parts.len(), 3);
    for w in parts.windows(2) {
        assert!(w[0] <= w[1]);
    }
    for p in &parts {
        assert!(*p < (1u64 << 63));
    }
    for piece in name.split('_').skip(1) {
        assert!(piece == "0" || !piece.starts_with('0'));
    }
}

#[test]
fn dm_name_distinguishes_participants() {
    assert_ne!(generate_dm_name(&["alice"]), generate_dm_name(&["bob"]));
}

#[test]
fn dm_name_of_nobody() {
    assert_eq!(generate_dm_name(&[]), "DM");
}

#[test]
fn dm_name_keeps_repeated_participants() {
    let name = generate_dm_name(&["alice", "alice"]);
    let parts = dm_parts(&name);
    assert_eq!(parts.len(), 2);
    assert_eq!(parts[0], parts[1]);
}

#[test]
fn split_keeps_empty_pieces() {
    assert_eq!(split_on_spaces("a b  c"), vec!["a", "b", "", "c"]);
    assert_eq!(split_on_spaces(""), vec![""]);
    assert_eq!(split_on_spaces("alice bob\n"), vec!["alice", "bob\n"]);
}

#[test]
fn input_before_handshake_sends_nothing() {
    let mut s = Session::new("alice".to_owned());
    assert_eq!(s.phase, Phase::AwaitingToken);
    for line in ["hello", "h", "q", "c", "d"] {
        assert!(matches!(s.on_input(line), Action::Nothing));
    }
    assert_eq!(s.phase, Phase::AwaitingToken);
    assert_eq!(s.channel, "general");
}

#[test]
fn auth_request_carries_password() {
    let s = Session::new("alice".to_owned());
    let m = s.auth_request("secret".to_owned());
    assert_eq!(
        m,
        Message::Auth(AuthMessage {
            username: "alice".to_owned(),
            auth_token: None,
            password: Some("secret".to_owned()),
        })
    );
}

#[test]
fn second_token_is_refused() {
    let mut s = ready_session();
    assert!(!s.on_token("T2".to_owned()));
    assert_eq!(s.auth_token, Some("T1".to_owned()));
}

#[test]
fn quit_input_quits_cleanly() {
    let mut s = ready_session();
    assert!(matches!(s.on_input("q"), Action::Quit));
    assert!(matches!(s.on_input(" q\n"), Action::Quit));
    assert_eq!(quit_status(), 0);
}

#[test]
fn history_input_sends_history_command() {
    let mut s = ready_session();
    match s.on_input("h") {
        Action::Send(m) => assert_eq!(
            m,
            Message::Command(CommandMessage {
                username: "alice".to_owned(),
                auth_token: "T1".to_owned(),
                command_type: "history".to_owned(),
                args: vec!["general".to_owned(), "50".to_owned()],
            })
        ),
        other => panic!("unexpected {:?}", other),
    }
}

#[test]
fn direct_message_input_sets_channel() {
    let mut s = ready_session();
    assert!(matches!(s.on_input("d"), Action::AskDmUsers));
    assert!(matches!(s.on_input("alice bob"), Action::Nothing));
    assert_eq!(s.phase, Phase::Ready);
    assert_eq!(s.channel, generate_dm_name(&["alice", "bob"]));
    assert_eq!(s.channel, generate_dm_name(&["bob", "alice"]));
}

#[test]
fn channel_input_sets_trimmed_channel() {
    let mut s = ready_session();
    assert!(matches!(s.on_input("c"), Action::AskChannel));
    assert_eq!(s.phase, Phase::AwaitingChannel);
    assert!(matches!(s.on_input("  rust  \n"), Action::Nothing));
    assert_eq!(s.channel, "rust");
    assert_eq!(s.phase, Phase::Ready);
}

#[test]
fn other_input_sends_text() {
    let mut s = ready_session();
    match s.on_input("hello there\n") {
        Action::Send(m) => assert_eq!(m, text("hello there")),
        other => panic!("unexpected {:?}", other),
    }
}

#[test]
fn outbox_keeps_order() {
    let mut q = Outbox::new();
    assert!(q.is_empty());
    q.push(text("A"));
    q.push(text("B"));
    q.push(text("C"));
    assert_eq!(q.len(), 3);
    assert_eq!(q.pop(), Some(text("A")));
    assert_eq!(q.pop(), Some(text("B")));
    assert_eq!(q.pop(), Some(text("C")));
    assert_eq!(q.pop(), None);
}

#[test]
fn reader_hands_over_first_token() {
    let mut r = Reader::new();
    let auth = |t: Option<&str>| {
        Inbound::Frame(Message::Auth(AuthMessage {
            username: "alice".to_owned(),
            auth_token: t.map(|s| s.to_owned()),
            password: None,
        }))
    };
    match r.on_inbound(auth(Some("T1"))) {
        ReaderAction::DeliverToken(t) => assert_eq!(t, "T1"),
        other => panic!("unexpected {:?}", other),
    }
    assert!(r.token_delivered);
    assert!(matches!(r.on_inbound(auth(Some("T2"))), ReaderAction::Ignore));
    let mut fresh = Reader::new();
    assert!(matches!(fresh.on_inbound(auth(None)), ReaderAction::Fail(Failure::Decode)));
}

#[test]
fn reader_shows_text() {
    let mut r = Reader::new();
    match r.on_inbound(Inbound::Frame(text("hi"))) {
        ReaderAction::Show(s) => assert_eq!(s, "<alice> hi"),
        other => panic!("unexpected {:?}", other),
    }
    if let Message::Text(t) = text("x y") {
        assert_eq!(render_text(&t), "<alice> x y");
    }
}

#[test]
fn reader_ignores_file_and_command() {
    let mut r = Reader::new();
    let f = Message::File(FileMessage {
        username: "a".to_owned(),
        auth_token: "T".to_owned(),
        filename: "f".to_owned(),
        data: "AAAA".to_owned(),
    });
    assert!(matches!(r.on_inbound(Inbound::Frame(f)), ReaderAction::Ignore));
    let c = Message::Command(CommandMessage {
        username: "a".to_owned(),
        auth_token: "T".to_owned(),
        command_type: "history".to_owned(),
        args: vec![],
    });
    assert!(matches!(r.on_inbound(Inbound::Frame(c)), ReaderAction::Ignore));
}

#[test]
fn end_of_stream_exits_with_one() {
    let mut r = Reader::new();
    match r.on_inbound(Inbound::EndOfStream) {
        ReaderAction::Fail(f) => {
            assert_eq!(f, Failure::PeerClosed);
            assert_eq!(f.exit_status(), 1);
        }
        other => panic!("unexpected {:?}", other),
    }
    assert!(matches!(r.on_inbound(Inbound::ReadError), ReaderAction::Fail(Failure::Io)));
    assert!(matches!(r.on_inbound(Inbound::Malformed), ReaderAction::Fail(Failure::Decode)));
    assert_eq!(Failure::Connection.exit_status(), 1);
}

#[test]
fn frame_line_appends_terminator() {
    assert_eq!(frame_line("{\"Text\":{}}"), Some("{\"Text\":{}}\n".to_owned()));
    assert_eq!(frame_line(""), Some("\n".to_owned()));
    assert_eq!(frame_line("a\nb"), None);
}

#[test]
fn write_outcomes() {
    assert_eq!(write_failure(WriteOutcome::Accepted(5)), None);
    assert_eq!(write_failure(WriteOutcome::Accepted(0)), Some(Failure::PeerClosed));
    assert_eq!(write_failure(WriteOutcome::Failed), Some(Failure::Io));
}
