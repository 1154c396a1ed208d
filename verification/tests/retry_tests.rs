use czn_core::errors::CoreError;
use czn_core::retry::{retry_log_line, run_retry, RetryPolicy, RetryState};

fn net_err(msg: &str) -> Result<String, CoreError> {
    Err(CoreError::NetworkError(msg.to_string()))
}

#[test]
fn success_on_fourth_attempt_returns_value_and_sleeps_seven() {
    let outcomes = vec![
        net_err("down"),
        net_err("down again"),
        net_err("still down"),
        Ok("payload".to_string()),
    ];
    let (result, slept) = run_retry(RetryPolicy::standard(), outcomes);
    assert_eq!(result.unwrap(), "payload");
    assert_eq!(slept, 7);
}

#[test]
fn exhaustion_returns_the_final_error_not_an_earlier_one() {
    let outcomes = vec![net_err("e1"), net_err("e2"), net_err("e3"), net_err("e4")];
    let (result, slept) = run_retry(RetryPolicy::standard(), outcomes);
    match result {
        Err(CoreError::NetworkError(m)) => assert_eq!(m, "e4"),
        _ => panic!("expected the fourth attempt's error"),
    }
    assert_eq!(slept, 7);
}

#[test]
fn immediate_success_is_never_retried_and_sleeps_nothing() {
    let outcomes = vec![
        Ok("first".to_string()),
        net_err("never reached"),
        net_err("never reached"),
        net_err("never reached"),
    ];
    let (result, slept) = run_retry(RetryPolicy::standard(), outcomes);
    assert_eq!(result.unwrap(), "first");
    assert_eq!(slept, 0);
}

#[test]
fn success_on_second_attempt_sleeps_only_the_first_delay() {
    let outcomes = vec![
        net_err("blip"),
        Ok("second".to_string()),
        net_err("unused"),
        net_err("unused"),
    ];
    let (result, slept) = run_retry(RetryPolicy::standard(), outcomes);
    assert_eq!(result.unwrap(), "second");
    assert_eq!(slept, 1);
}

#[test]
fn incremental_backoff_doubles_then_gives_up() {
    let mut state = RetryState::new(RetryPolicy::standard());
    assert_eq!(state.on_failure(), Some(1));
    assert_eq!(state.on_failure(), Some(2));
    assert_eq!(state.on_failure(), Some(4));
    assert_eq!(state.on_failure(), None);
}

#[test]
fn retry_log_line_renders_delay_and_error() {
    let line = retry_log_line(2, "Ошибка запроса: timeout");
    assert_eq!(
        line,
        "🔁 Повтор запроса через 2 сек (ошибка: Ошибка запроса: timeout)"
    );
}

#[test]
fn error_messages_render_each_variant() {
    assert_eq!(CoreError::NetworkError("n".to_string()).message(), "n");
    assert_eq!(CoreError::ServerRejected("s".to_string()).message(), "s");
    assert_eq!(CoreError::ParseError("p".to_string()).message(), "p");
    assert_eq!(CoreError::SigningError("g".to_string()).message(), "g");
    assert_eq!(CoreError::StorageError("d".to_string()).message(), "d");
    assert_eq!(CoreError::NotAuthenticated.message(), "Токен не найден");
}
