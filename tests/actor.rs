use datarepl::actor::{Actor, Phase};
use datarepl::command::{HeadOpts, ListOpts, ReplCommand, SchemaOpts, SqlOpts};
use datarepl::engine::EngineError;
use datarepl::request::Request;
use datarepl::submit::{submission_result, SubmitError};

#[test]
fn new_actor_is_idle() {
    let a: Actor<u32> = Actor::new();
    assert_eq!(a.phase(), Phase::Idle);
    assert!(a.is_waiting());
}

#[test]
fn one_command_round_trip() {
    let mut a: Actor<u32> = Actor::new();
    let r = a.accept(ReplCommand::List(ListOpts), 7);
    assert!(matches!(r, Request::Query(_)));
    assert_eq!(a.phase(), Phase::Executing);
    assert!(!a.is_waiting());
    let (h, text) = a.finish(Ok("rows".to_string()));
    assert_eq!(h, 7);
    assert_eq!(text, "rows");
    assert_eq!(a.phase(), Phase::Idle);
}

#[test]
fn replies_follow_submission_order() {
    let mut a: Actor<usize> = Actor::new();
    let mut seen = Vec::new();
    for i in 0..6usize {
        let cmd = ReplCommand::Sql(SqlOpts::new(format!("select {}", i)));
        match a.accept(cmd, i) {
            Request::Query(q) => assert_eq!(q, format!("select {}", i)),
            _ => panic!("expected a query"),
        }
        let (h, text) = a.finish(Ok(format!("result {}", i)));
        assert_eq!(text, format!("result {}", h));
        seen.push(h);
    }
    assert_eq!(seen, vec![0, 1, 2, 3, 4, 5]);
}

#[test]
fn two_producers_get_their_own_replies() {
    let mut a: Actor<&str> = Actor::new();
    a.accept(ReplCommand::Sql(SqlOpts::new("select 'alpha'".to_string())), "alpha");
    let (h1, t1) = a.finish(Ok("alpha".to_string()));
    a.accept(ReplCommand::Sql(SqlOpts::new("select 'beta'".to_string())), "beta");
    let (h2, t2) = a.finish(Ok("beta".to_string()));
    assert_eq!((h1, t1.as_str()), ("alpha", "alpha"));
    assert_eq!((h2, t2.as_str()), ("beta", "beta"));
}

#[test]
fn missing_table_is_rendered_and_serving_continues() {
    let mut a: Actor<u8> = Actor::new();
    a.accept(ReplCommand::Schema(SchemaOpts::new("missing_table".to_string())), 1);
    let err = EngineError::from_diagnostic("table 'missing_table' not found".to_string());
    let (h, text) = a.finish(Err(err));
    assert_eq!(h, 1);
    assert!(text.starts_with("Not found: "));
    assert_eq!(a.phase(), Phase::Idle);
    a.accept(ReplCommand::Head(HeadOpts::new("t".to_string(), None)), 2);
    let (h, text) = a.finish(Ok("ok".to_string()));
    assert_eq!((h, text.as_str()), (2, "ok"));
}

#[test]
fn abandoned_reply_does_not_leak_into_next() {
    let mut a: Actor<u32> = Actor::new();
    a.accept(ReplCommand::List(ListOpts), 1);
    let (h, _text) = a.finish(Ok("first".to_string()));
    assert_eq!(h, 1);
    // the first producer stopped waiting: its reply is simply dropped
    a.accept(ReplCommand::List(ListOpts), 2);
    let (h, text) = a.finish(Ok("second".to_string()));
    assert_eq!(h, 2);
    assert_eq!(text, "second");
}

#[test]
fn closing_drains_then_stops() {
    let mut a: Actor<u32> = Actor::new();
    a.close();
    assert_eq!(a.phase(), Phase::Draining);
    assert!(a.is_waiting());
    a.accept(ReplCommand::List(ListOpts), 9);
    let (h, _) = a.finish(Ok(String::new()));
    assert_eq!(h, 9);
    assert_eq!(a.phase(), Phase::Draining);
    a.stop();
    assert_eq!(a.phase(), Phase::Stopped);
    assert!(!a.is_waiting());
}

#[test]
fn submission_outcomes() {
    assert_eq!(submission_result(true, Some("x".to_string())), Ok(Some("x".to_string())));
    assert_eq!(submission_result(true, None), Ok(None));
    assert_eq!(submission_result(false, None), Err(SubmitError::ChannelClosed));
    assert_eq!(submission_result(false, Some("x".to_string())), Err(SubmitError::ChannelClosed));
}
