//! The refresh driver: what a tick of the timer does to the labels.
//!
//! The host runs the timer and talks to the data source. The driver decides.
//! On each tick it writes the clock into the time label and, at an alignment
//! point, asks for a quote; when the answer comes, it writes the quote label
//! or, if the fetch failed, leaves the old quote in place.

use vstd::prelude::*;
use crate::clock::{is_alignment_point, ClockReading};
use crate::event::{Event, LifeCycle, Requests, INVALID_TIMER, TICK_SECONDS};
use crate::stock::{answer_view, fetch_stock_data, fetched_quote, FetchError};
use crate::state::{AppState, AppStateView};

verus! {

/// What the driver remembers between events.
pub struct Driver {
    /// The token of the timer that the driver waits for.
    pub timer: u64,
    /// Whether a quote was asked for and the answer is still out.
    pub fetch_pending: bool,
}

/// Whether an event is the tick that the driver waits for.
pub open spec fn is_own_tick(driver: Driver, event: Event) -> bool {
    event matches Event::Timer(id) && id == driver.timer
}

/// Whether a tick at this reading asks for a quote: at an alignment point,
/// unless an earlier answer is still out.
pub open spec fn quote_due(driver: Driver, now: ClockReading) -> bool {
    is_alignment_point(now.unix_seconds as int) && !driver.fetch_pending
}

/// What a tick asks of the host: draw again, start the next timer, and fetch
/// a quote if one is due.
pub open spec fn tick_requests(driver: Driver, now: ClockReading) -> Requests {
    Requests { update: true, timer_secs: Some(TICK_SECONDS), fetch_quote: quote_due(driver, now) }
}

/// The driver after a tick.
pub open spec fn driver_after_tick(driver: Driver, now: ClockReading) -> Driver {
    Driver { fetch_pending: driver.fetch_pending || quote_due(driver, now), ..driver }
}

/// The state after a tick: the time label shows the reading, the rest stays.
pub open spec fn state_after_tick(state: AppStateView, now: ClockReading) -> AppStateView {
    state.with_time(now.text())
}

/// What became of an answer of the data source.
#[derive(Clone, Copy, Debug, PartialEq, Eq, Structural)]
pub enum QuoteOutcome {
    /// The quote label shows the new quote.
    Stored,
    /// The fetch failed and the old quote stays; the reason is for the log.
    Failed(FetchError),
    /// No answer was awaited: it was dropped.
    Unasked,
}

/// What becomes of an answer, given the driver that receives it.
pub open spec fn quote_outcome(
    driver: Driver,
    answer: Result<Seq<char>, FetchError>,
) -> QuoteOutcome {
    if !driver.fetch_pending {
        QuoteOutcome::Unasked
    } else {
        match answer {
            Ok(_) => QuoteOutcome::Stored,
            Err(reason) => QuoteOutcome::Failed(reason),
        }
    }
}

/// The driver after an answer: nothing is awaited any more.
pub open spec fn driver_after_quote(driver: Driver) -> Driver {
    Driver { fetch_pending: false, ..driver }
}

/// The state after an answer: an awaited closing price is written into the
/// quote label; a failure, or an answer that was not awaited, changes nothing.
pub open spec fn state_after_quote(
    driver: Driver,
    state: AppStateView,
    answer: Result<Seq<char>, FetchError>,
) -> AppStateView {
    match fetched_quote(answer) {
        Ok(line) if driver.fetch_pending => state.with_stock(line),
        _ => state,
    }
}

/// A tick that the driver has handled.
#[derive(Clone, Copy, Debug)]
pub struct Tick {
    /// The clock as the driver read it.
    pub now: ClockReading,
    /// What the host is to do next.
    pub requests: Requests,
}

/// Keeps the labels fresh, one event at a time.
#[derive(Debug)]
pub struct TimeUpdater {
    timer: u64,
    fetch_pending: bool,
}

impl View for TimeUpdater {
    type V = Driver;

    closed spec fn view(&self) -> Driver {
        Driver { timer: self.timer, fetch_pending: self.fetch_pending }
    }
}

impl TimeUpdater {
    /// A driver that waits for no timer and no answer.
    pub fn new() -> (driver: TimeUpdater)
        ensures
            driver@ == (Driver { timer: INVALID_TIMER, fetch_pending: false }),
    {
        TimeUpdater { timer: INVALID_TIMER, fetch_pending: false }
    }

    /// The token of the timer that the driver waits for.
    pub fn timer(&self) -> (token: u64)
        ensures
            token == self@.timer,
    {
        self.timer
    }

    /// Whether an answer of the data source is still out.
    pub fn fetch_pending(&self) -> (pending: bool)
        ensures
            pending == self@.fetch_pending,
    {
        self.fetch_pending
    }

    /// Sees one step in the widget's life. Once the widget is in the window
    /// the first timer is asked for; nothing else is ever asked here.
    pub fn lifecycle(&self, event: &LifeCycle) -> (requests: Requests)
        ensures
            requests == if *event is WidgetAdded {
                Requests::timer_only()
            } else {
                Requests::nothing()
            },
    {
        match event {
            LifeCycle::WidgetAdded => Requests {
                update: false,
                timer_secs: Some(TICK_SECONDS),
                fetch_quote: false,
            },
            LifeCycle::Other => Requests { update: false, timer_secs: None, fetch_quote: false },
        }
    }

    /// Takes the token of the timer that the host has started.
    pub fn timer_armed(&mut self, token: u64)
        ensures
            final(self)@ == (Driver { timer: token, ..old(self)@ }),
    {
        self.timer = token;
    }

    /// Handles a tick at a given reading of the clock. The time label is
    /// written on every tick. A quote is asked for at an alignment point, and
    /// then the driver waits: the host owes it one call of `quote_fetched`
    /// for the request, whether the fetch went well or not. A tick that is
    /// late for its alignment point asks for nothing.
    pub fn tick(&mut self, now: &ClockReading, data: &mut AppState) -> (requests: Requests)
        requires
            now.wf(),
        ensures
            final(self)@ == driver_after_tick(old(self)@, *now),
            final(data)@ == state_after_tick(old(data)@, *now),
            requests == tick_requests(old(self)@, *now),
    {
        data.current_time = now.to_text();
        let fetch_quote = now.at_alignment_point() && !self.fetch_pending;
        if fetch_quote {
            self.fetch_pending = true;
        }
        Requests { update: true, timer_secs: Some(TICK_SECONDS), fetch_quote }
    }

    /// Sees one event of the window. If it is the tick that the driver waits
    /// for, the clock is read and the tick handled: the answer carries the
    /// reading and the requests. Any other event changes nothing.
    pub fn event(&mut self, event: &Event, data: &mut AppState) -> (tick: Option<Tick>)
        ensures
            tick is Some <==> is_own_tick(old(self)@, *event),
            match tick {
                Some(t) => {
                    &&& t.now.wf()
                    &&& final(self)@ == driver_after_tick(old(self)@, t.now)
                    &&& final(data)@ == state_after_tick(old(data)@, t.now)
                    &&& t.requests == tick_requests(old(self)@, t.now)
                },
                None => final(self)@ == old(self)@ && final(data)@ == old(data)@,
            },
    {
        match event {
            Event::Timer(id) => {
                if *id == self.timer {
                    let now = ClockReading::now();
                    let requests = self.tick(&now, data);
                    Some(Tick { now, requests })
                } else {
                    None
                }
            },
            _ => None,
        }
    }

    /// Takes the answer of the data source. An awaited closing price becomes
    /// the new quote line. A failed fetch leaves the quote as it was and hands
    /// the reason back for the log. Either way nothing is awaited afterwards.
    pub fn quote_fetched(
        &mut self,
        answer: Result<String, FetchError>,
        data: &mut AppState,
    ) -> (outcome: QuoteOutcome)
        ensures
            final(self)@ == driver_after_quote(old(self)@),
            final(data)@ == state_after_quote(old(self)@, old(data)@, answer_view(answer)),
            outcome == quote_outcome(old(self)@, answer_view(answer)),
    {
        let awaited = self.fetch_pending;
        self.fetch_pending = false;
        if !awaited {
            return QuoteOutcome::Unasked;
        }
        match fetch_stock_data(answer) {
            Ok(line) => {
                data.stock = line;
                QuoteOutcome::Stored
            },
            Err(reason) => QuoteOutcome::Failed(reason),
        }
    }
}

} // verus!
