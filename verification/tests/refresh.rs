use ticker_overlay::clock::ClockReading;
use ticker_overlay::event::{Event, LifeCycle, Requests, INVALID_TIMER, TICK_SECONDS};
use ticker_overlay::stock::FetchError;
use ticker_overlay::refresh::{QuoteOutcome, TimeUpdater};
use ticker_overlay::state::AppState;

fn at(unix_seconds: i64) -> ClockReading {
    ClockReading::new(unix_seconds, 0).expect("representable")
}

fn some_state() -> AppState {
    AppState {
        name: String::new(),
        current_time: String::from("1970-01-01 00:00:00"),
        stock: String::from("0700.HK close: 1"),
    }
}

/// What a host does with one tick when it fetches at once.
fn round(
    driver: &mut TimeUpdater,
    state: &mut AppState,
    now: ClockReading,
    answer: Result<String, FetchError>,
) -> Option<QuoteOutcome> {
    let requests = driver.tick(&now, state);
    if requests.fetch_quote {
        Some(driver.quote_fetched(answer, state))
    } else {
        None
    }
}

#[test]
fn a_new_driver_waits_for_nothing() {
    let driver = TimeUpdater::new();
    assert_eq!(driver.timer(), INVALID_TIMER);
    assert_eq!(INVALID_TIMER, 0);
    assert!(!driver.fetch_pending());
}

#[test]
fn the_first_timer_is_asked_for_when_the_widget_is_added() {
    let driver = TimeUpdater::new();
    assert_eq!(TICK_SECONDS, 1);
    assert_eq!(
        driver.lifecycle(&LifeCycle::WidgetAdded),
        Requests { update: false, timer_secs: Some(1), fetch_quote: false }
    );
    assert_eq!(
        driver.lifecycle(&LifeCycle::Other),
        Requests { update: false, timer_secs: None, fetch_quote: false }
    );
}

#[test]
fn the_driver_keeps_the_token_it_is_given() {
    let mut driver = TimeUpdater::new();
    driver.timer_armed(41);
    assert_eq!(driver.timer(), 41);
    assert!(!driver.fetch_pending());
    driver.timer_armed(42);
    assert_eq!(driver.timer(), 42);
}

#[test]
fn a_tick_writes_the_clock_and_asks_for_the_next() {
    let mut driver = TimeUpdater::new();
    let mut state = some_state();
    let requests = driver.tick(&at(1_709_208_001), &mut state);
    assert_eq!(state.current_time, "2024-02-29 12:00:01");
    assert_eq!(state.stock, "0700.HK close: 1");
    assert_eq!(state.name, "");
    assert_eq!(requests, Requests { update: true, timer_secs: Some(1), fetch_quote: false });
    assert!(!driver.fetch_pending());
}

#[test]
fn a_tick_at_an_alignment_point_asks_for_a_quote() {
    let mut driver = TimeUpdater::new();
    let mut state = some_state();
    let requests = driver.tick(&at(1_709_208_000), &mut state);
    assert_eq!(requests, Requests { update: true, timer_secs: Some(1), fetch_quote: true });
    assert!(driver.fetch_pending());
    // the quote itself waits for the answer
    assert_eq!(state.stock, "0700.HK close: 1");
    assert_eq!(state.current_time, "2024-02-29 12:00:00");
}

#[test]
fn a_tick_keeps_the_timer_token() {
    let mut driver = TimeUpdater::new();
    let mut state = some_state();
    driver.timer_armed(9);
    driver.tick(&at(30), &mut state);
    assert_eq!(driver.timer(), 9);
    driver.quote_fetched(Ok(String::from("2")), &mut state);
    assert_eq!(driver.timer(), 9);
}

#[test]
fn a_close_of_seven_is_shown_after_the_first_aligned_tick() {
    let mut driver = TimeUpdater::new();
    let mut state = some_state();
    let close: f64 = 7.0;
    for seconds in 1..=30 {
        round(&mut driver, &mut state, at(seconds), Ok(close.to_string()));
        if seconds < 30 {
            assert_eq!(state.stock, "0700.HK close: 1", "at {}", seconds);
        }
    }
    assert_eq!(state.stock, "0700.HK close: 7");
}

#[test]
fn the_quote_changes_at_zero_and_thirty_only() {
    let mut driver = TimeUpdater::new();
    let mut state = some_state();
    let mut changed_at = Vec::new();
    for seconds in 0..60 {
        let before = state.stock.clone();
        round(&mut driver, &mut state, at(seconds), Ok(format!("{}", 100 + seconds)));
        if state.stock != before {
            changed_at.push(seconds);
        }
        assert!(!driver.fetch_pending());
    }
    assert_eq!(changed_at, vec![0, 30]);
    assert_eq!(state.stock, "0700.HK close: 130");
    assert_eq!(state.current_time, "1970-01-01 00:00:59");
}

#[test]
fn the_time_label_follows_every_tick() {
    let mut driver = TimeUpdater::new();
    let mut state = some_state();
    for seconds in 1_709_207_990..1_709_208_050 {
        let now = at(seconds);
        round(&mut driver, &mut state, now, Err(FetchError::NetworkError));
        assert_eq!(state.current_time, now.to_text());
    }
    assert_eq!(state.current_time, "2024-02-29 12:00:49");
}

#[test]
fn a_failed_fetch_keeps_the_quote() {
    for reason in [
        FetchError::NetworkError,
        FetchError::NoDataAvailable,
        FetchError::ProviderInitError,
    ] {
        let mut driver = TimeUpdater::new();
        let mut state = some_state();
        let outcome = round(&mut driver, &mut state, at(60), Err(reason));
        assert_eq!(outcome, Some(QuoteOutcome::Failed(reason)));
        assert_eq!(state.stock, "0700.HK close: 1");
        assert_eq!(state.current_time, "1970-01-01 00:01:00");
        assert!(!driver.fetch_pending());
    }
}

#[test]
fn a_fetch_that_succeeds_after_a_failure_is_shown() {
    let mut driver = TimeUpdater::new();
    let mut state = some_state();
    round(&mut driver, &mut state, at(30), Err(FetchError::NoDataAvailable));
    assert_eq!(state.stock, "0700.HK close: 1");
    let outcome = round(&mut driver, &mut state, at(60), Ok(String::from("8.5")));
    assert_eq!(outcome, Some(QuoteOutcome::Stored));
    assert_eq!(state.stock, "0700.HK close: 8.5");
}

#[test]
fn a_missed_alignment_point_is_not_made_up_for() {
    let mut driver = TimeUpdater::new();
    let mut state = some_state();
    // the tick of second 30 never came
    for seconds in [28, 29, 31, 32] {
        let outcome = round(&mut driver, &mut state, at(seconds), Ok(String::from("9")));
        assert_eq!(outcome, None);
    }
    assert_eq!(state.stock, "0700.HK close: 1");
}

#[test]
fn no_second_fetch_while_an_answer_is_out() {
    let mut driver = TimeUpdater::new();
    let mut state = some_state();
    assert!(driver.tick(&at(30), &mut state).fetch_quote);
    for seconds in 31..60 {
        assert!(!driver.tick(&at(seconds), &mut state).fetch_quote);
    }
    // still out at the next alignment point: no second request
    assert!(!driver.tick(&at(60), &mut state).fetch_quote);
    assert!(driver.fetch_pending());
    assert_eq!(state.stock, "0700.HK close: 1");
    assert_eq!(driver.quote_fetched(Ok(String::from("3")), &mut state), QuoteOutcome::Stored);
    assert_eq!(state.stock, "0700.HK close: 3");
    assert!(!driver.fetch_pending());
    assert!(driver.tick(&at(90), &mut state).fetch_quote);
}

#[test]
fn an_answer_nobody_awaits_is_dropped() {
    let mut driver = TimeUpdater::new();
    let mut state = some_state();
    assert_eq!(driver.quote_fetched(Ok(String::from("5")), &mut state), QuoteOutcome::Unasked);
    assert_eq!(state.stock, "0700.HK close: 1");
    assert_eq!(
        driver.quote_fetched(Err(FetchError::NetworkError), &mut state),
        QuoteOutcome::Unasked
    );
    assert_eq!(state.stock, "0700.HK close: 1");
    assert_eq!(state.current_time, "1970-01-01 00:00:00");
}

#[test]
fn an_answer_changes_the_quote_label_alone() {
    let mut driver = TimeUpdater::new();
    let mut state = some_state();
    state.name = String::from("kept");
    driver.tick(&at(0), &mut state);
    driver.quote_fetched(Ok(String::from("7")), &mut state);
    assert_eq!(state.name, "kept");
    assert_eq!(state.current_time, "1970-01-01 00:00:00");
    assert_eq!(state.stock, "0700.HK close: 7");
}

#[test]
fn the_own_timer_is_handled() {
    let mut driver = TimeUpdater::new();
    let mut state = some_state();
    driver.timer_armed(5);
    let tick = driver.event(&Event::Timer(5), &mut state).expect("the own timer");
    assert_eq!(state.current_time, tick.now.to_text());
    assert_eq!(state.current_time.len(), 19);
    assert!(tick.requests.update);
    assert_eq!(tick.requests.timer_secs, Some(1));
    assert_eq!(tick.requests.fetch_quote, tick.now.unix_seconds % 30 == 0);
    assert_eq!(driver.fetch_pending(), tick.requests.fetch_quote);
    assert_eq!(state.stock, "0700.HK close: 1");
    assert_eq!(driver.timer(), 5);
}

#[test]
fn an_unarmed_driver_takes_the_invalid_token_for_its_own() {
    let mut driver = TimeUpdater::new();
    let mut state = some_state();
    assert!(driver.event(&Event::Timer(INVALID_TIMER), &mut state).is_some());
}

#[test]
fn another_timer_is_passed_over() {
    let mut driver = TimeUpdater::new();
    let mut state = some_state();
    driver.timer_armed(5);
    assert!(driver.event(&Event::Timer(6), &mut state).is_none());
    assert!(driver.event(&Event::Timer(INVALID_TIMER), &mut state).is_none());
    assert_eq!(state.current_time, "1970-01-01 00:00:00");
    assert_eq!(state.stock, "0700.HK close: 1");
    assert_eq!(driver.timer(), 5);
    assert!(!driver.fetch_pending());
}

#[test]
fn other_events_are_passed_over() {
    let mut driver = TimeUpdater::new();
    let mut state = some_state();
    assert!(driver.event(&Event::MouseMove, &mut state).is_none());
    assert!(driver.event(&Event::Other, &mut state).is_none());
    assert_eq!(state.current_time, "1970-01-01 00:00:00");
    assert_eq!(state.stock, "0700.HK close: 1");
    assert!(!driver.fetch_pending());
}

#[test]
fn a_spent_token_is_passed_over_once_the_next_timer_runs() {
    let mut driver = TimeUpdater::new();
    let mut state = some_state();
    driver.timer_armed(5);
    assert!(driver.event(&Event::Timer(5), &mut state).is_some());
    driver.timer_armed(6);
    assert!(driver.event(&Event::Timer(5), &mut state).is_none());
    assert!(driver.event(&Event::Timer(6), &mut state).is_some());
}
