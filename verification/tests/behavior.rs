use tower_log::Async;
use tower_log::Computation;
use tower_log::Level;
use tower_log::LogErrors;
use tower_log::LogResponses;
use tower_log::RecordingSink;
use tower_log::Service;
use tower_log::ServiceFactory;
use tower_log::Sink;
use tower_log::log_errors_at;
use tower_log::log_responses_at;

/// A computation that yields a scripted sequence of outcomes, front first.
struct Script {
    outcomes: Vec<Result<Async<String>, String>>,
}

impl Script {
    fn of(outcomes: Vec<Result<Async<String>, String>>) -> Script {
        Script { outcomes }
    }
}

impl Computation for Script {
    type Item = String;
    type Error = String;

    fn poll<S: Sink>(&mut self, _sink: &mut S) -> Result<Async<String>, String> {
        self.outcomes.remove(0)
    }
}

/// A service whose readiness checks are scripted and whose calls echo the
/// request back as one ready response.
struct EchoService {
    ready: Vec<Result<Async<()>, String>>,
}

impl Service for EchoService {
    type Request = String;
    type Response = String;
    type Error = String;
    type Future = Script;

    fn poll_ready<S: Sink>(&mut self, _sink: &mut S) -> Result<Async<()>, String> {
        self.ready.remove(0)
    }

    fn call(&mut self, req: String) -> Script {
        Script::of(vec![Ok(Async::Ready(req))])
    }
}

/// A factory whose construction computation is scripted.
struct EchoFactory;

impl ServiceFactory for EchoFactory {
    type Request = String;
    type Response = String;
    type Error = String;
    type Service = EchoService;
    type InitError = String;
    type Future = Script;

    fn new_service(&self) -> Script {
        Script::of(vec![Ok(Async::NotReady)])
    }
}

fn ready(s: &str) -> Result<Async<String>, String> {
    Ok(Async::Ready(s.to_string()))
}

#[test]
fn error_decorator_level_defaults_to_error() {
    let d = LogErrors::new(());
    assert_eq!(d.level, Level::Error);
    assert!(d.target.is_none());
    assert!(d.module.is_none());
    assert!(d.file.is_none());
    assert!(d.line.is_none());
}

#[test]
fn response_decorator_level_defaults_to_debug() {
    let d = LogResponses::new(());
    assert_eq!(d.level, Level::Debug);
    assert!(!d.not_ready);
    assert!(d.target.is_none());
    assert!(d.module.is_none());
    assert!(d.file.is_none());
    assert!(d.line.is_none());
}

#[test]
fn fluent_setters_assign_their_fields() {
    let d = LogErrors::new(())
        .at_level(Level::Warn)
        .with_target("t")
        .in_module("m")
        .at_location("f", 7);
    assert_eq!(d.level, Level::Warn);
    assert_eq!(d.target, Some("t"));
    assert_eq!(d.module, Some("m"));
    assert_eq!(d.file, Some("f"));
    assert_eq!(d.line, Some(7));

    let r = LogResponses::new(())
        .at_level(Level::Info)
        .with_target("rt")
        .in_module("rm")
        .at_location("rf", 9)
        .log_not_ready(true);
    assert_eq!(r.level, Level::Info);
    assert_eq!(r.target, Some("rt"));
    assert_eq!(r.module, Some("rm"));
    assert_eq!(r.file, Some("rf"));
    assert_eq!(r.line, Some(9));
    assert!(r.not_ready);
}

#[test]
fn decorated_computation_outcomes_match_undecorated() {
    let script = vec![
        Ok(Async::NotReady),
        ready("hi"),
        Err("boom".to_string()),
        ready("again"),
    ];
    let mut plain = Script::of(script.clone());
    let mut sink = RecordingSink::new();

    let mut err_decorated = LogErrors::new(Script::of(script.clone()));
    for expected in &script {
        assert_eq!(plain.poll(&mut sink), *expected);
        assert_eq!(err_decorated.poll(&mut sink), *expected);
    }

    let mut plain = Script::of(script.clone());
    let mut resp_decorated = LogResponses::new(Script::of(script.clone()));
    for expected in &script {
        assert_eq!(plain.poll(&mut sink), *expected);
        assert_eq!(resp_decorated.poll(&mut sink), *expected);
    }
}

#[test]
fn error_decorator_is_silent_on_success() {
    let mut d = LogErrors::new(Script::of(vec![
        Ok(Async::NotReady),
        ready("fine"),
        Ok(Async::NotReady),
        ready("fine"),
    ]))
    .at_level(Level::Trace);
    let mut sink = RecordingSink::new();
    for _ in 0..4 {
        let _ = d.poll(&mut sink);
    }
    assert_eq!(sink.records.len(), 0);
}

#[test]
fn error_decorator_logs_each_error() {
    let mut d = LogErrors::new(Script::of(vec![Err("boom".to_string()), ready("ok")]));
    let mut sink = RecordingSink::new();
    assert_eq!(d.poll(&mut sink), Err("boom".to_string()));
    assert_eq!(sink.records.len(), 1);
    let record = &sink.records[0];
    assert_eq!(record.level, Level::Error);
    assert_eq!(record.message, "Computation::poll: boom");
    assert_eq!(record.target, "tower_log");
    assert_eq!(record.module, "tower_log");
    let _ = d.poll(&mut sink);
    assert_eq!(sink.records.len(), 1);
}

#[test]
fn response_decorator_is_silent_on_errors() {
    let mut d = LogResponses::new(Script::of(vec![Err("boom".to_string())])).log_not_ready(true);
    let mut sink = RecordingSink::new();
    assert_eq!(d.poll(&mut sink), Err("boom".to_string()));
    assert_eq!(sink.records.len(), 0);
}

#[test]
fn not_ready_suppressed_by_default() {
    let script = vec![
        Ok(Async::NotReady),
        Ok(Async::NotReady),
        Ok(Async::NotReady),
        Ok(Async::NotReady),
        Ok(Async::NotReady),
        ready("done"),
    ];
    let mut d = LogResponses::new(Script::of(script));
    let mut sink = RecordingSink::new();
    for _ in 0..6 {
        let _ = d.poll(&mut sink);
    }
    assert_eq!(sink.records.len(), 1);
    assert_eq!(sink.records[0].message, "Computation::poll: done");
    assert_eq!(sink.records[0].level, Level::Debug);
}

#[test]
fn not_ready_logged_when_asked() {
    let script = vec![
        Ok(Async::NotReady),
        Ok(Async::NotReady),
        Ok(Async::NotReady),
        Ok(Async::NotReady),
        Ok(Async::NotReady),
        ready("done"),
    ];
    let mut d = LogResponses::new(Script::of(script)).log_not_ready(true);
    let mut sink = RecordingSink::new();
    for _ in 0..6 {
        let _ = d.poll(&mut sink);
    }
    assert_eq!(sink.records.len(), 6);
    assert_eq!(sink.records[0].message, "Computation::poll: NotReady");
    assert_eq!(sink.records[5].message, "Computation::poll: done");
}

#[test]
fn target_falls_back_to_module_then_identity() {
    let mut sink = RecordingSink::new();
    let with_module = LogErrors::new(()).in_module("m");
    with_module.log_line(&"e".to_string(), "ctx", &mut sink);
    assert_eq!(sink.records[0].target, "m");
    assert_eq!(sink.records[0].module, "m");

    let with_target = LogErrors::new(()).with_target("t");
    with_target.log_line(&"e".to_string(), "ctx", &mut sink);
    assert_eq!(sink.records[1].target, "t");
    assert_eq!(sink.records[1].module, "t");

    let with_both = LogErrors::new(()).with_target("t").in_module("m");
    with_both.log_line(&"e".to_string(), "ctx", &mut sink);
    assert_eq!(sink.records[2].target, "t");
    assert_eq!(sink.records[2].module, "m");

    let with_neither = LogErrors::new(());
    with_neither.log_line(&"e".to_string(), "ctx", &mut sink);
    assert_eq!(sink.records[3].target, "tower_log");
    assert_eq!(sink.records[3].module, "tower_log");
    assert_eq!(sink.records[3].file, "tower_log/src/record.rs");
    assert_eq!(sink.records[3].line, 0);
    assert_eq!(sink.records[3].message, "ctx: e");
}

#[test]
fn children_inherit_configuration() {
    let mut parent = LogErrors::new(EchoService { ready: vec![Ok(Async::Ready(()))] })
        .at_level(Level::Warn)
        .with_target("t")
        .at_location("f", 7);
    let child = parent.call("req".to_string());
    assert_eq!(child.level, Level::Warn);
    assert_eq!(child.target, Some("t"));
    assert_eq!(child.module, None);
    assert_eq!(child.file, Some("f"));
    assert_eq!(child.line, Some(7));

    let mut parent = LogResponses::new(EchoService { ready: vec![Ok(Async::Ready(()))] })
        .at_level(Level::Warn)
        .with_target("t")
        .at_location("f", 7)
        .log_not_ready(true);
    let child = parent.call("req".to_string());
    assert_eq!(child.level, Level::Warn);
    assert!(child.not_ready);
    assert_eq!(child.target, Some("t"));
    assert_eq!(child.module, None);
    assert_eq!(child.file, Some("f"));
    assert_eq!(child.line, Some(7));
}

#[test]
fn factory_children_inherit_configuration() {
    let parent = LogErrors::new(EchoFactory).at_level(Level::Info).in_module("m");
    let child = parent.new_service();
    assert_eq!(child.level, Level::Info);
    assert_eq!(child.module, Some("m"));

    let parent = LogResponses::new(EchoFactory).log_not_ready(true).with_target("t");
    let child = parent.new_service();
    assert!(child.not_ready);
    assert_eq!(child.target, Some("t"));
}

#[test]
fn service_readiness_errors_are_logged() {
    let mut d = LogErrors::new(EchoService {
        ready: vec![Ok(Async::NotReady), Err("down".to_string())],
    });
    let mut sink = RecordingSink::new();
    assert_eq!(d.poll_ready(&mut sink), Ok(Async::NotReady));
    assert_eq!(sink.records.len(), 0);
    assert_eq!(d.poll_ready(&mut sink), Err("down".to_string()));
    assert_eq!(sink.records.len(), 1);
    assert_eq!(sink.records[0].message, "Service::poll_ready: down");
}

#[test]
fn service_readiness_successes_are_logged_by_response_decorator() {
    let mut d = LogResponses::new(EchoService { ready: vec![Ok(Async::Ready(()))] });
    let mut sink = RecordingSink::new();
    assert_eq!(d.poll_ready(&mut sink), Ok(Async::Ready(())));
    assert_eq!(sink.records.len(), 1);
    assert_eq!(sink.records[0].message, "Service::poll_ready: ()");
}

#[test]
fn called_child_logs_the_response() {
    let mut d = LogResponses::new(EchoService { ready: vec![Ok(Async::Ready(()))] })
        .at_level(Level::Info)
        .with_target("svc");
    let mut sink = RecordingSink::new();
    let mut child = d.call("hello".to_string());
    assert_eq!(child.poll(&mut sink), Ok(Async::Ready("hello".to_string())));
    assert_eq!(sink.records.len(), 1);
    assert_eq!(sink.records[0].message, "Computation::poll: hello");
    assert_eq!(sink.records[0].level, Level::Info);
    assert_eq!(sink.records[0].target, "svc");
}

#[test]
fn call_site_helpers_attribute_to_the_caller() {
    let e = log_errors_at((), "caller::module", "caller.rs", 41);
    assert_eq!(e.level, Level::Error);
    assert_eq!(e.target, None);
    assert_eq!(e.module, Some("caller::module"));
    assert_eq!(e.file, Some("caller.rs"));
    assert_eq!(e.line, Some(41));

    let r = log_responses_at((), "caller::module", "caller.rs", 42);
    assert_eq!(r.level, Level::Debug);
    assert!(!r.not_ready);
    assert_eq!(r.module, Some("caller::module"));
    assert_eq!(r.file, Some("caller.rs"));
    assert_eq!(r.line, Some(42));
}

#[test]
fn recording_sink_starts_empty_and_keeps_order() {
    let mut sink = RecordingSink::new();
    assert_eq!(sink.records.len(), 0);
    let d = LogErrors::new(()).at_level(Level::Warn);
    d.log_line(&"first".to_string(), "a", &mut sink);
    d.log_line(&"second".to_string(), "b", &mut sink);
    assert_eq!(sink.records.len(), 2);
    assert_eq!(sink.records[0].message, "a: first");
    assert_eq!(sink.records[1].message, "b: second");
    assert_eq!(sink.records[1].level, Level::Warn);
}

#[test]
fn record_decisions_match_policy() {
    let e = LogErrors::new(());
    assert!(e.error_record::<String, String>(&Ok(Async::NotReady), "c").is_none());
    assert!(e.error_record::<String, String>(&Ok(Async::Ready("v".to_string())), "c").is_none());
    let record = e.error_record::<String, String>(&Err("x".to_string()), "c").unwrap();
    assert_eq!(record.message, "c: x");

    let r = LogResponses::new(());
    assert!(r.response_record::<String, String>(&Ok(Async::NotReady), "c").is_none());
    assert!(r.response_record::<String, String>(&Err("x".to_string()), "c").is_none());
    let record = r
        .response_record::<String, String>(&Ok(Async::Ready("v".to_string())), "c")
        .unwrap();
    assert_eq!(record.message, "c: v");

    let r = r.log_not_ready(true);
    let record = r.response_record::<String, String>(&Ok(Async::NotReady), "c").unwrap();
    assert_eq!(record.message, "c: NotReady");
    assert!(r.response_record::<String, String>(&Err("x".to_string()), "c").is_none());
}

#[test]
fn configured_level_is_carried_on_records() {
    let mut sink = RecordingSink::new();
    let d = LogResponses::new(()).at_level(Level::Trace);
    d.log_line(&"r".to_string(), "ctx", &mut sink);
    assert_eq!(sink.records[0].level, Level::Trace);
}

#[test]
fn empty_strings_are_legal_configuration() {
    let mut sink = RecordingSink::new();
    let d = LogErrors::new(()).with_target("").in_module("m");
    d.log_line(&"e".to_string(), "c", &mut sink);
    assert_eq!(sink.records[0].target, "");
    assert_eq!(sink.records[0].module, "m");
}

#[test]
fn largest_line_number_is_kept() {
    let d = LogErrors::new(()).at_location("f", u32::MAX);
    assert_eq!(d.line, Some(u32::MAX));
    let mut sink = RecordingSink::new();
    d.log_line(&"e".to_string(), "c", &mut sink);
    assert_eq!(sink.records[0].line, u32::MAX);
}

#[test]
fn decorators_compose() {
    let mut d = LogResponses::new(LogErrors::new(Script::of(vec![
        Err("boom".to_string()),
        ready("ok"),
    ])));
    let mut sink = RecordingSink::new();
    assert_eq!(d.poll(&mut sink), Err("boom".to_string()));
    assert_eq!(sink.records.len(), 1);
    assert_eq!(sink.records[0].message, "Computation::poll: boom");
    assert_eq!(sink.records[0].level, Level::Error);
    assert_eq!(d.poll(&mut sink), ready("ok"));
    assert_eq!(sink.records.len(), 2);
    assert_eq!(sink.records[1].message, "Computation::poll: ok");
    assert_eq!(sink.records[1].level, Level::Debug);
}
