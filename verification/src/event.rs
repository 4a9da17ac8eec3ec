//! What the host tells the handlers, and what they ask of it.

use vstd::prelude::*;

verus! {

/// The timer token of a handler that has not asked for a timer yet.
pub const INVALID_TIMER: u64 = 0;

/// Seconds from one tick of the timer to the next.
pub const TICK_SECONDS: u64 = 1;

/// An event of the window, as far as the handlers tell events apart.
#[derive(Clone, Copy, Debug, PartialEq, Eq, Structural)]
pub enum Event {
    /// The timer with this token fired.
    Timer(u64),
    /// The pointer moved over the window.
    MouseMove,
    /// Anything else.
    Other,
}

/// A step in the life of a widget.
#[derive(Clone, Copy, Debug, PartialEq, Eq, Structural)]
pub enum LifeCycle {
    /// The widget was added to the window.
    WidgetAdded,
    /// Anything else.
    Other,
}

/// What a handler asks of the host once it has seen an event.
#[derive(Clone, Copy, Debug, PartialEq, Eq, Structural)]
pub struct Requests {
    /// Draw the labels again.
    pub update: bool,
    /// Start a timer that fires after this many seconds, and report its token.
    pub timer_secs: Option<u64>,
    /// Ask the data source for a quote, and report its answer.
    pub fetch_quote: bool,
}

impl Requests {
    /// Nothing is asked.
    pub open spec fn nothing() -> Requests {
        Requests { update: false, timer_secs: None, fetch_quote: false }
    }

    /// Only a timer is asked for.
    pub open spec fn timer_only() -> Requests {
        Requests { update: false, timer_secs: Some(TICK_SECONDS), fetch_quote: false }
    }
}

} // verus!
