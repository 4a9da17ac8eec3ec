//! A whole round of the timer, and what holds of it.
//!
//! A host that fetches while it handles the tick does, in one callback, what
//! `round` describes: it lets the driver handle the tick and, if a quote is
//! asked for, hands the driver the data source's answer right away. A host
//! that fetches in the background does the two steps apart; what is said
//! here of the steps holds for it too.

use vstd::prelude::*;
use crate::clock::{is_alignment_point, ClockReading};
use crate::stock::{quote_text, FetchError};
use crate::refresh::{
    driver_after_quote,
    driver_after_tick,
    state_after_quote,
    state_after_tick,
    tick_requests,
    Driver,
};
use crate::state::AppStateView;

verus! {

/// The driver and the state after one round: the tick at `now`, followed by
/// the answer of the data source if the tick asked for a quote.
pub open spec fn round(
    driver: Driver,
    state: AppStateView,
    now: ClockReading,
    answer: Result<Seq<char>, FetchError>,
) -> (Driver, AppStateView) {
    let ticked_driver = driver_after_tick(driver, now);
    let ticked_state = state_after_tick(state, now);
    if tick_requests(driver, now).fetch_quote {
        (
            driver_after_quote(ticked_driver),
            state_after_quote(ticked_driver, ticked_state, answer),
        )
    } else {
        (ticked_driver, ticked_state)
    }
}

/// After every round the time label shows the clock as it was read at the
/// tick, whatever the driver awaited and whatever the data source answered.
pub proof fn time_label_shows_the_tick(
    driver: Driver,
    state: AppStateView,
    now: ClockReading,
    answer: Result<Seq<char>, FetchError>,
)
    ensures
        round(driver, state, now, answer).1.current_time == now.text(),
        round(driver, state, now, answer).1.name == state.name,
{
}

/// A round whose tick is off the alignment points leaves the quote label as
/// it was, and asks nothing of the data source.
pub proof fn quote_changes_only_at_alignment_points(
    driver: Driver,
    state: AppStateView,
    now: ClockReading,
    answer: Result<Seq<char>, FetchError>,
)
    requires
        !is_alignment_point(now.unix_seconds as int),
    ensures
        !tick_requests(driver, now).fetch_quote,
        round(driver, state, now, answer).1.stock == state.stock,
        round(driver, state, now, answer).0 == driver,
{
}

/// A round at an alignment point, with nothing awaited, shows the closing
/// price that the data source answered.
pub proof fn fetched_quote_is_shown(
    driver: Driver,
    state: AppStateView,
    now: ClockReading,
    close: Seq<char>,
)
    requires
        is_alignment_point(now.unix_seconds as int),
        !driver.fetch_pending,
    ensures
        round(driver, state, now, Ok(close)).1.stock == quote_text(close),
        round(driver, state, now, Ok(close)).0 == driver,
{
}

/// A round in which the fetch fails leaves the quote label as it was.
pub proof fn failed_fetch_keeps_the_quote(
    driver: Driver,
    state: AppStateView,
    now: ClockReading,
    reason: FetchError,
)
    ensures
        round(driver, state, now, Err(reason)).1.stock == state.stock,
{
}

/// While an answer is out no tick asks for another, and a tick that asks
/// for one leaves the driver waiting: at most one fetch is under way.
pub proof fn one_fetch_at_a_time(driver: Driver, now: ClockReading)
    ensures
        driver.fetch_pending ==> !tick_requests(driver, now).fetch_quote,
        tick_requests(driver, now).fetch_quote ==> driver_after_tick(driver, now).fetch_pending,
        driver.fetch_pending ==> driver_after_tick(driver, now).fetch_pending,
{
}

/// An answer that arrives while none is awaited changes neither label.
pub proof fn unasked_answer_is_dropped(
    driver: Driver,
    state: AppStateView,
    answer: Result<Seq<char>, FetchError>,
)
    requires
        !driver.fetch_pending,
    ensures
        state_after_quote(driver, state, answer) == state,
{
}

} // verus!
