use sermaid::args::{Args, DEFAULT_CONFIG};
use sermaid::assemble::LineAssembler;
use sermaid::command::{parse_command, verb_of, Command, UsageError, Verb};
use sermaid::history::ConversationHistory;
use sermaid::indicator::{tick_action, Indicator, IndicatorPhase, TickAction};
use sermaid::request::{
    commit_request, completion_content, question_request, translate_request, ApiError, Choice,
    CompletionError, Message, Request, Response, Role, COMMIT_PROMPT, MODEL, QUESTION_PROMPT,
    TRANSLATE_PROMPT,
};
use sermaid::session::{Session, Step};

fn words(ws: &[&str]) -> Vec<String> {
    ws.iter().map(|w| w.to_string()).collect()
}

fn contents(req: &Request) -> Vec<(Role, String)> {
    req.messages.iter().map(|m| (m.role, m.content.clone())).collect()
}

fn call(step: Step) -> Request {
    match step {
        Step::Call(req) => req,
        _ => panic!("expected a request"),
    }
}

#[test]
fn continued_lines_assemble_into_one_command() {
    let mut a = LineAssembler::new();
    assert!(!a.push_line("ask foo \\"));
    assert!(a.push_line("bar"));
    let cmd = a.into_command();
    assert_eq!(cmd, "ask foo \nbar");
    let mut s = Session::new();
    let req = call(s.submit(&cmd));
    assert_eq!(req.messages.last().unwrap().content, "foo bar");
}

#[test]
fn lines_are_trimmed() {
    let mut a = LineAssembler::new();
    assert!(!a.push_line("  ask one\\  "));
    assert!(!a.push_line("\ttwo \\"));
    assert!(a.push_line("  three  "));
    assert_eq!(a.into_command(), "ask one\ntwo \nthree");
}

#[test]
fn single_line_and_empty_line() {
    let mut a = LineAssembler::new();
    assert!(a.push_line("exit"));
    assert_eq!(a.into_command(), "exit");
    let mut b = LineAssembler::new();
    assert!(b.push_line("   "));
    assert_eq!(b.into_command(), "");
}

#[test]
fn malformed_quoting_is_a_syntax_error_and_loop_goes_on() {
    let mut s = Session::new();
    assert!(matches!(s.submit("ask \"unterminated"), Step::Syntax));
    assert!(!s.is_awaiting());
    assert_eq!(s.history().len(), 0);
    let req = call(s.submit("ask hello"));
    assert_eq!(req.messages.last().unwrap().content, "hello");
    s.complete(Some("hi".to_string()));
    assert_eq!(s.history().len(), 1);
}

#[test]
fn exit_as_first_command() {
    let mut s = Session::new();
    assert!(matches!(s.submit("exit"), Step::Exit));
    assert_eq!(s.history().len(), 0);
    assert!(!s.is_awaiting());
}

#[test]
fn continue_replays_history_in_order() {
    let mut s = Session::new();
    let first = call(s.submit("ask what is one"));
    assert_eq!(
        contents(&first),
        vec![
            (Role::System, QUESTION_PROMPT.to_string()),
            (Role::User, "what is one".to_string())
        ]
    );
    s.complete(Some("1".to_string()));
    call(s.submit("c and two"));
    s.complete(Some("2".to_string()));
    let third = call(s.submit("continue sum them"));
    assert_eq!(
        contents(&third),
        vec![
            (Role::System, QUESTION_PROMPT.to_string()),
            (Role::User, "what is one".to_string()),
            (Role::Assistant, "1".to_string()),
            (Role::User, "and two".to_string()),
            (Role::Assistant, "2".to_string()),
            (Role::User, "sum them".to_string()),
        ]
    );
    assert_eq!(third.model, MODEL);
    assert_eq!(third.temperature, Some(0));
}

#[test]
fn ask_sends_no_history() {
    let mut s = Session::new();
    call(s.submit("q first"));
    s.complete(Some("answer".to_string()));
    let req = call(s.submit("ask second"));
    assert_eq!(req.messages.len(), 2);
    assert_eq!(req.messages[1].content, "second");
}

#[test]
fn failing_calls_keep_history() {
    let mut s = Session::new();
    call(s.submit("ask kept"));
    s.complete(Some("yes".to_string()));
    for line in ["ask lost", "continue lost", "translate lost"] {
        call(s.submit(line));
        assert!(s.is_awaiting());
        s.complete(None);
        assert!(!s.is_awaiting());
        assert_eq!(s.history().len(), 1);
    }
    assert_eq!(s.history().question(0), "kept");
    assert_eq!(s.history().answer(0), "yes");
}

#[test]
fn translation_is_not_recorded() {
    let mut s = Session::new();
    let req = call(s.submit("tr bonjour tout le monde"));
    assert_eq!(
        contents(&req),
        vec![
            (Role::System, TRANSLATE_PROMPT.to_string()),
            (Role::User, "bonjour tout le monde".to_string())
        ]
    );
    s.complete(Some("hello everyone".to_string()));
    assert_eq!(s.history().len(), 0);
}

#[test]
fn clear_and_usage_errors() {
    let mut s = Session::new();
    assert!(matches!(s.submit("clear"), Step::ClearScreen));
    assert!(matches!(s.submit(""), Step::Usage(UsageError::MissingVerb)));
    match s.submit("frobnicate now") {
        Step::Usage(UsageError::UnknownVerb(w)) => assert_eq!(w, "frobnicate"),
        _ => panic!("expected an unknown verb"),
    }
    match s.submit("exit now") {
        Step::Usage(UsageError::UnexpectedArgument(w)) => assert_eq!(w, "now"),
        _ => panic!("expected an unexpected argument"),
    }
    assert!(!s.is_awaiting());
    assert_eq!(s.history().len(), 0);
}

#[test]
fn history_lengths_stay_equal() {
    let mut s = Session::new();
    let outcomes = [Some("a"), None, Some("b"), None];
    for (i, o) in outcomes.iter().enumerate() {
        call(s.submit(if i % 2 == 0 { "ask x" } else { "continue y" }));
        s.complete(o.map(|a| a.to_string()));
    }
    assert_eq!(s.history().len(), 2);
    assert_eq!(s.history().answer(1), "b");
}

#[test]
fn parse_aliases() {
    assert_eq!(verb_of("ask"), Some(Verb::Ask));
    assert_eq!(verb_of("q"), Some(Verb::Ask));
    assert_eq!(verb_of("continue"), Some(Verb::Continue));
    assert_eq!(verb_of("c"), Some(Verb::Continue));
    assert_eq!(verb_of("translate"), Some(Verb::Translate));
    assert_eq!(verb_of("tr"), Some(Verb::Translate));
    assert_eq!(verb_of("clear"), Some(Verb::Clear));
    assert_eq!(verb_of("exit"), Some(Verb::Exit));
    assert_eq!(verb_of("quit"), None);
    assert_eq!(verb_of("as"), None);
}

#[test]
fn parse_rejoins_arguments_with_quoting() {
    match parse_command(&words(&["ask", "hello world", "x"])) {
        Ok(Command::Ask(t)) => assert_eq!(t, "'hello world' x"),
        _ => panic!("expected ask"),
    }
    match parse_command(&words(&["ask"])) {
        Ok(Command::Ask(t)) => assert_eq!(t, ""),
        _ => panic!("expected ask"),
    }
    assert!(matches!(parse_command(&words(&["clear"])), Ok(Command::Clear)));
    assert!(matches!(
        parse_command(&words(&["clear", "x"])),
        Err(UsageError::UnexpectedArgument(_))
    ));
    assert!(matches!(parse_command(&words(&[])), Err(UsageError::MissingVerb)));
}

#[test]
fn quoted_command_round_trips() {
    let mut s = Session::new();
    let req = call(s.submit("ask 'it''s' \"a b\""));
    assert_eq!(req.messages[1].content, "its 'a b'");
}

#[test]
fn history_records_pairs() {
    let mut h = ConversationHistory::new();
    h.record("q".to_string(), "a".to_string());
    assert_eq!(h.len(), 1);
    let req = question_request("next".to_string(), &h);
    assert_eq!(
        contents(&req),
        vec![
            (Role::System, QUESTION_PROMPT.to_string()),
            (Role::User, "q".to_string()),
            (Role::Assistant, "a".to_string()),
            (Role::User, "next".to_string()),
        ]
    );
}

#[test]
fn request_builders() {
    let r = Request::new();
    assert_eq!(r.messages.len(), 0);
    assert_eq!(r.model, MODEL);
    assert_eq!(r.temperature, None);
    let r = r.with_temperature(7).append(Message::new("hi".to_string(), Role::User));
    assert_eq!(r.temperature, Some(7));
    assert_eq!(contents(&r), vec![(Role::User, "hi".to_string())]);
    let t = translate_request("text".to_string());
    assert_eq!(t.messages[0].content, TRANSLATE_PROMPT);
    let c = commit_request("summary".to_string());
    assert_eq!(
        contents(&c),
        vec![
            (Role::System, COMMIT_PROMPT.to_string()),
            (Role::User, "summary".to_string())
        ]
    );
    assert_eq!(c.temperature, Some(0));
}

fn choice(text: &str) -> Choice {
    Choice { message: Message::new(text.to_string(), Role::Assistant) }
}

#[test]
fn completion_takes_last_choice() {
    let resp = Response { choices: Some(vec![choice("first"), choice("last")]), error: None };
    match completion_content(resp) {
        Ok(c) => assert_eq!(c, "last"),
        Err(_) => panic!("expected content"),
    }
}

#[test]
fn completion_errors() {
    let empty = Response { choices: Some(vec![]), error: None };
    assert!(matches!(completion_content(empty), Err(CompletionError::EmptyChoices)));
    let rejected = Response {
        choices: None,
        error: Some(ApiError { message: "bad key".to_string() }),
    };
    match completion_content(rejected) {
        Err(CompletionError::Rejected(m)) => assert_eq!(m, "bad key"),
        _ => panic!("expected rejection"),
    }
    let silent = Response { choices: None, error: None };
    match completion_content(silent) {
        Err(CompletionError::Rejected(m)) => assert_eq!(m, ""),
        _ => panic!("expected rejection"),
    }
}

#[test]
fn indicator_lifecycle_and_ticks() {
    let mut ind = Indicator::new();
    assert_eq!(ind.phase_of(), IndicatorPhase::Idle);
    ind.start();
    assert_eq!(ind.phase_of(), IndicatorPhase::Running);
    ind.stop();
    assert_eq!(ind.phase_of(), IndicatorPhase::Stopped);
    assert_eq!(tick_action(false), TickAction::Draw);
    assert_eq!(tick_action(true), TickAction::Finish);
}

#[test]
fn args_config_path() {
    assert_eq!(Args::default().config_path(), DEFAULT_CONFIG);
    assert_eq!(Args::new("/etc/x.toml".to_string()).config_path(), "/etc/x.toml");
}
