use trader::store::{
    deleted_any, match_rows_to_pairs, total_written, write_batches, Trader, UserAuthInfo, ValidationError, WRITE_BATCH,
};
use trader::strategy::{eval_window_start, launch_failed, load_failed, read_answer, ScriptValue, TradingPosition};
use trader::DummyUpdate;

#[test]
fn trader_credentials() {
    let t = Trader {
        id: 1,
        user_id: 2,
        name: "main".to_string(),
        exchange: "binance".to_string(),
        api_key: "KEY".to_string(),
        api_secret: "SECRET-REDACTED".to_string(),
    };
    let a = t.into_auth_info();
    assert_eq!(a.key, "KEY");
    assert_eq!(a.secret, "SECRET-REDACTED");
}

#[test]
fn email_validation() {
    let ok = UserAuthInfo { email: "email@here.com".to_string(), password: "p".to_string() };
    assert_eq!(ok.validate(), Ok(()));
    let bad = UserAuthInfo { email: "not-an-email".to_string(), password: "p".to_string() };
    assert_eq!(bad.validate(), Err(ValidationError::InvalidEmail));
    let no_domain = UserAuthInfo { email: "a@".to_string(), password: "p".to_string() };
    assert_eq!(no_domain.validate(), Err(ValidationError::InvalidEmail));
}

#[test]
fn deletion_counts() {
    assert!(!deleted_any(0));
    assert!(deleted_any(2));
}

#[test]
fn rows_matched_to_pairs() {
    assert_eq!(match_rows_to_pairs(&vec![3, 1], &vec![1, 2, 3, 1]), Some(vec![2, 0]));
    assert_eq!(match_rows_to_pairs(&vec![3, 4], &vec![1, 2, 3]), None);
    assert_eq!(match_rows_to_pairs(&vec![], &vec![]), Some(vec![]));
}

#[test]
fn rows_written_in_batches() {
    assert_eq!(write_batches(0, WRITE_BATCH), vec![]);
    assert_eq!(write_batches(10, 4), vec![(0, 4), (4, 8), (8, 10)]);
    assert_eq!(write_batches(8, 4), vec![(0, 4), (4, 8)]);
    assert_eq!(write_batches(5000, WRITE_BATCH), vec![(0, 4096), (4096, 5000)]);
    assert_eq!(total_written(&vec![4096, 904]), Some(5000));
    assert_eq!(total_written(&vec![usize::MAX, 1]), None);
    assert_eq!(total_written(&vec![]), Some(0));
}

#[test]
fn positions_by_word() {
    assert_eq!(TradingPosition::from_word("long"), Some(TradingPosition::Long));
    assert_eq!(TradingPosition::from_word("short"), Some(TradingPosition::Short));
    assert_eq!(TradingPosition::from_word("neutral"), Some(TradingPosition::Neutral));
    assert_eq!(TradingPosition::from_word("Long"), None);
    for p in [TradingPosition::Long, TradingPosition::Short, TradingPosition::Neutral] {
        assert_eq!(TradingPosition::from_word(p.as_word()), Some(p));
    }
}

fn text(s: &str) -> ScriptValue {
    ScriptValue::Text { text: Some(s.to_string()), debug: format!("String({:?})", s) }
}

fn nil() -> ScriptValue {
    ScriptValue::Other { debug: "Nil".to_string() }
}

#[test]
fn script_answers() {
    let neg = ScriptValue::Number { negative: true, debug: "Number(-1.0)".to_string() };
    assert_eq!(read_answer(neg, nil()).ok(), Some(TradingPosition::Short));
    let pos = ScriptValue::Number { negative: false, debug: "Number(0.0)".to_string() };
    assert_eq!(read_answer(pos, nil()).ok(), Some(TradingPosition::Long));
    assert_eq!(read_answer(text("neutral"), nil()).ok(), Some(TradingPosition::Neutral));
    let e = read_answer(text("buy"), nil()).err().unwrap();
    assert_eq!(e.message(), "Expected `short` `long` or `neutral`, buy was provided");
    let e = read_answer(nil(), text("boom")).err().unwrap();
    assert_eq!(e.message(), "Invalid strategy output : boom");
    let e = read_answer(nil(), nil()).err().unwrap();
    assert_eq!(e.message(), "Invalid strategy output : Nil");
    assert_eq!(launch_failed("syntax error").message(), "Could not launch strategy: syntax error");
    assert_eq!(load_failed("bad").message(), "bad");
}

#[test]
fn evaluation_window() {
    assert_eq!(eval_window_start(1_000_000, 60), 940_000);
    assert_eq!(eval_window_start(0, 0), 0);
}

#[test]
fn dummy_update_time() {
    let u = DummyUpdate { time: 5 };
    assert_eq!(u.time, 5);
}
