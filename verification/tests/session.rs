use loglens::message::{duplicate_all, Message, Role};
use loglens::ollama::{ChatRequest, Ollama, SetupAction, SetupEvent, INSTALL_NOTICE, MODEL_NAME};
use loglens::progress::PullProgress;
use loglens::prompt::{system_prompt, PROMPT_HEAD, PROMPT_TAIL};
use loglens::stream::{Reply, StreamFragment, StreamItem};

fn fragment(text: &str) -> StreamItem {
    StreamItem::content(Message::assistant(text.to_string()))
}

fn listing(names: &[&str]) -> SetupEvent {
    SetupEvent::Models(names.iter().map(|n| n.to_string()).collect())
}

fn ready_session() -> Ollama {
    let mut session = Ollama::new();
    let action = session.initialize_model(&listing(&["gemma2:9b"]), "2024-01-01T00:00:00Z");
    assert_eq!(action, SetupAction::Ready);
    session
}

#[test]
fn new_session_has_empty_history() {
    let session = Ollama::new();
    assert!(session.history().is_empty());
}

#[test]
fn present_model_seeds_history_without_install() {
    let mut session = Ollama::new();
    let action =
        session.initialize_model(&listing(&["llama3:8b", "gemma2:9b"]), "2024-03-04T05:06:07Z");
    assert_eq!(action, SetupAction::Ready);
    let history = session.history();
    assert_eq!(history.len(), 1);
    assert_eq!(history[0].role, Role::System);
    assert!(history[0].content.starts_with(PROMPT_HEAD));
    assert!(history[0].content.ends_with(PROMPT_TAIL));
    assert!(history[0].content.contains("Current time is 2024-03-04T05:06:07Z."));
}

#[test]
fn system_prompt_holds_local_time_in_rfc3339() {
    let clock = chrono::Local::now().to_rfc3339_opts(chrono::SecondsFormat::Secs, true);
    let mut session = Ollama::new();
    session.initialize_model(&SetupEvent::InstallEnded, &clock);
    let content = session.history()[0].content.clone();
    let now = &content[PROMPT_HEAD.len()..content.len() - PROMPT_TAIL.len()];
    let parsed = chrono::DateTime::parse_from_rfc3339(now);
    assert_eq!(now, clock);
    assert!(parsed.is_ok(), "not a time: {now}");
    assert!(now.len() == 20 || now.len() == 25, "unexpected precision: {now}");
    assert_eq!(&now[10..11], "T");
}

#[test]
fn absent_model_asks_for_install_and_leaves_history() {
    let mut session = Ollama::new();
    let action =
        session.initialize_model(&listing(&["llama3:8b", "gemma2:2b"]), "2024-01-01T00:00:00Z");
    assert_eq!(
        action,
        SetupAction::Install {
            notice: "Installing model.... please wait".to_string(),
            model: "gemma2:9b".to_string(),
        }
    );
    assert!(session.history().is_empty());
    assert_eq!(INSTALL_NOTICE, "Installing model.... please wait");
    assert_eq!(MODEL_NAME, "gemma2:9b");
}

#[test]
fn empty_listing_asks_for_install() {
    let action = Ollama::next_action(&listing(&[]));
    assert!(matches!(action, SetupAction::Install { .. }));
}

#[test]
fn progress_is_shown_in_order_and_leaves_history() {
    let mut session = Ollama::new();
    let events = vec![
        PullProgress { message: "pulling layers".to_string(), total: None, completed: None },
        PullProgress { message: "downloading".to_string(), total: Some(2048), completed: Some(512) },
        PullProgress { message: "success".to_string(), total: Some(1), completed: None },
    ];
    let mut lines: Vec<String> = Vec::new();
    for p in events {
        match session.initialize_model(&SetupEvent::Progress(p), "2024-01-01T00:00:00Z") {
            SetupAction::Show(line) => lines.push(line),
            other => panic!("unexpected action {other:?}"),
        }
    }
    assert_eq!(lines, vec!["pulling layers ", "downloading 512/2048", "success "]);
    assert!(session.history().is_empty());
}

#[test]
fn install_end_seeds_history() {
    let mut session = Ollama::new();
    let action = session.initialize_model(&SetupEvent::InstallEnded, "2024-05-06T07:08:09+02:00");
    assert_eq!(action, SetupAction::Ready);
    assert_eq!(
        session.history(),
        &vec![Message::system(system_prompt("2024-05-06T07:08:09+02:00"))]
    );
}

#[test]
fn setup_ignores_time_until_ready() {
    let mut session = Ollama::new();
    let action = session.initialize_model(&listing(&["other"]), "2024-05-06T07:08:09Z");
    assert!(matches!(action, SetupAction::Install { .. }));
    assert!(session.history().is_empty());
}

#[test]
fn second_setup_appends_second_system_message() {
    let mut session = ready_session();
    session.initialize_model(&SetupEvent::InstallEnded, "2024-01-01T00:00:01Z");
    let roles: Vec<Role> = session.history().iter().map(|m| m.role).collect();
    assert_eq!(roles, vec![Role::System, Role::System]);
}

#[test]
fn system_prompt_exact_text() {
    let expected = format!(
        "You are an expert log parser and your purpose is to find report any errors or potential problems in the log.\n{pad}IMPORTANT ALWAYS REFERENCE YOUR FINDINGS.\n\n{pad}Current time is {now}.\n\n{pad}The log is as follows:",
        pad = " ".repeat(46),
        now = "2024-01-01T12:00:00Z"
    );
    assert_eq!(system_prompt("2024-01-01T12:00:00Z"), expected);
}

#[test]
fn has_model_finds_exact_names_only() {
    let names = vec!["gemma2:9b-instruct".to_string(), "Gemma2:9b".to_string()];
    assert!(!Ollama::has_model(&names, "gemma2:9b"));
    let names = vec!["a".to_string(), "gemma2:9b".to_string(), "b".to_string()];
    assert!(Ollama::has_model(&names, "gemma2:9b"));
    assert!(Ollama::has_model(&names, "b"));
    assert!(!Ollama::has_model(&Vec::new(), "gemma2:9b"));
}

#[test]
fn one_turn_relays_fragments_and_records_reply() {
    let mut session = ready_session();
    let request = session.send("some log text");
    assert_eq!(request.messages.len(), 2);
    let shown = session.complete(&vec![fragment("A"), fragment("B"), fragment("C")]);
    assert_eq!(shown, vec!["A", "B", "C"]);
    assert_eq!(
        session.history(),
        &vec![
            Message::system(system_prompt("2024-01-01T00:00:00Z")),
            Message::user("some log text".to_string()),
            Message::assistant("ABC".to_string()),
        ]
    );
}

#[test]
fn user_message_stays_when_request_is_abandoned() {
    let mut session = ready_session();
    let request = session.send("text");
    drop(request);
    let history = session.history();
    assert_eq!(history.len(), 2);
    assert_eq!(history[1], Message::user("text".to_string()));
}

#[test]
fn request_names_model_and_carries_whole_history() {
    let mut session = ready_session();
    let request: ChatRequest = session.send("text");
    assert_eq!(request.model, "gemma2:9b");
    assert_eq!(&request.messages, session.history());
}

#[test]
fn failed_element_is_dropped() {
    let mut session = ready_session();
    session.send("text");
    let items = vec![
        fragment("first "),
        StreamItem::Failed("connection reset".to_string()),
        fragment("second"),
    ];
    let shown = session.complete(&items);
    assert_eq!(shown, vec!["first ", "second"]);
    assert_eq!(session.history()[2], Message::assistant("first second".to_string()));
}

#[test]
fn fragment_without_message_is_dropped() {
    let empty = StreamItem::Fragment(StreamFragment { message: None });
    assert_eq!(empty.text(), None);
    assert_eq!(StreamItem::Failed("x".to_string()).text(), None);
    assert_eq!(fragment("x").text(), Some(&"x".to_string()));
    let mut session = ready_session();
    session.send("text");
    let shown = session.complete(&vec![empty, fragment("only")]);
    assert_eq!(shown, vec!["only"]);
    assert_eq!(session.history()[2].content, "only");
}

#[test]
fn empty_stream_records_empty_reply() {
    let mut session = ready_session();
    session.send("text");
    let shown = session.complete(&Vec::new());
    assert!(shown.is_empty());
    assert_eq!(session.history()[2], Message::assistant(String::new()));
}

#[test]
fn second_request_holds_first_reply() {
    let mut session = ready_session();
    session.send("one");
    session.complete(&vec![fragment("re"), fragment("ply")]);
    let request = session.send("two");
    let expected = vec![
        Message::system(system_prompt("2024-01-01T00:00:00Z")),
        Message::user("one".to_string()),
        Message::assistant("reply".to_string()),
        Message::user("two".to_string()),
    ];
    assert_eq!(request.messages, expected);
    assert_eq!(session.history(), &expected);
}

#[test]
fn reply_grows_element_by_element() {
    let mut reply = Reply::new();
    assert_eq!(reply.text(), "");
    reply.relay(&fragment("ab"));
    assert_eq!(reply.text(), "ab");
    reply.relay(&StreamItem::Failed("e".to_string()));
    assert_eq!(reply.text(), "ab");
    reply.relay(&fragment("cd"));
    assert_eq!(reply.clone().into_text(), "abcd");
    let mut session = Ollama::new();
    session.commit(reply);
    assert_eq!(session.history(), &vec![Message::assistant("abcd".to_string())]);
}

#[test]
fn disk_full_log_prints_single_fragment() {
    let mut session = Ollama::new();
    let action = session.initialize_model(&listing(&["gemma2:9b"]), "2024-01-02T00:00:00Z");
    assert_eq!(action, SetupAction::Ready);
    let request = session.send("2024-01-01 ERROR disk full");
    assert_eq!(request.messages[1], Message::user("2024-01-01 ERROR disk full".to_string()));
    let items = vec![fragment("Disk space issue detected at 2024-01-01.")];
    let mut printed = String::new();
    for item in &items {
        if let Some(text) = item.text() {
            printed.push_str(text);
        }
    }
    assert_eq!(printed, "Disk space issue detected at 2024-01-01.");
    let shown = session.complete(&items);
    assert_eq!(shown.concat(), "Disk space issue detected at 2024-01-01.");
}

#[test]
fn message_builders_set_roles() {
    assert_eq!(Message::system("s".to_string()).role, Role::System);
    assert_eq!(Message::user("u".to_string()).role, Role::User);
    assert_eq!(Message::assistant("a".to_string()).role, Role::Assistant);
    assert_eq!(Message::user("u".to_string()).content, "u");
}

#[test]
fn duplicates_equal_their_source() {
    let m = Message::user("hello".to_string());
    assert_eq!(m.duplicate(), m);
    let all = vec![m, Message::assistant("hi".to_string())];
    assert_eq!(duplicate_all(&all), all);
    assert!(duplicate_all(&Vec::new()).is_empty());
}

#[test]
fn refusal_aborts_setup_and_leaves_history() {
    let mut session = Ollama::new();
    let action = session.initialize_model(
        &SetupEvent::Refused("connection refused".to_string()),
        "2024-01-01T00:00:00Z",
    );
    assert_eq!(action, SetupAction::Abort("connection refused".to_string()));
    assert!(session.history().is_empty());
}

#[test]
fn failure_in_install_stream_ends_setup() {
    let mut session = Ollama::new();
    let action = session.initialize_model(
        &SetupEvent::ProgressFailed("bad chunk".to_string()),
        "2024-01-01T00:00:00Z",
    );
    assert_eq!(action, SetupAction::Ready);
    assert_eq!(session.history().len(), 1);
    assert_eq!(session.history()[0].role, Role::System);
}

#[test]
fn content_fragment_keeps_message_as_it_is() {
    let message = Message::user("echo".to_string());
    assert_eq!(
        StreamItem::content(message.clone()),
        StreamItem::Fragment(StreamFragment { message: Some(message) })
    );
}
