//! The application state: what the two labels show.

use vstd::prelude::*;
use crate::clock::ClockReading;
use crate::stock::{answer_view, fetch_stock_data, lemma_quote_text_len, quote_text, FetchError};

verus! {

/// The state behind the window. The host owns one value of it and lends it
/// to the handlers, which are the only ones to change it.
#[derive(Clone, Debug)]
pub struct AppState {
    /// Not shown anywhere; empty from the start.
    pub name: String,
    /// The time label: the clock as of the latest tick.
    pub current_time: String,
    /// The quote label: the latest quote that was fetched.
    pub stock: String,
}

/// The state as three sequences of characters.
pub struct AppStateView {
    pub name: Seq<char>,
    pub current_time: Seq<char>,
    pub stock: Seq<char>,
}

impl View for AppState {
    type V = AppStateView;

    open spec fn view(&self) -> AppStateView {
        AppStateView { name: self.name@, current_time: self.current_time@, stock: self.stock@ }
    }
}

impl AppStateView {
    /// The state with another time label.
    pub open spec fn with_time(self, text: Seq<char>) -> AppStateView {
        AppStateView { current_time: text, ..self }
    }

    /// The state with another quote label.
    pub open spec fn with_stock(self, text: Seq<char>) -> AppStateView {
        AppStateView { stock: text, ..self }
    }
}

/// The state that the window opens with, given the first answer of the data
/// source and the clock.
pub open spec fn initial_state(close: Seq<char>, now: ClockReading) -> AppStateView {
    AppStateView { name: Seq::empty(), current_time: now.text(), stock: quote_text(close) }
}

impl AppState {
    /// Makes the state that the window opens with. Without a first quote
    /// there is nothing to show: the error is handed back and no state is made.
    /// Otherwise both labels have text before anything is drawn.
    pub fn startup(answer: Result<String, FetchError>, now: &ClockReading) -> (state: Result<
        AppState,
        FetchError,
    >)
        requires
            now.wf(),
        ensures
            match answer {
                Ok(close) => state is Ok && state->Ok_0@ == initial_state(close@, *now),
                Err(reason) => state == Err::<AppState, FetchError>(reason),
            },
            state matches Ok(s) ==> s@.stock.len() > 0 && s@.current_time.len() > 0,
    {
        proof {
            if let Ok(close) = answer_view(answer) {
                lemma_quote_text_len(close);
            }
        }
        match fetch_stock_data(answer) {
            Ok(stock) => Ok(AppState { name: String::new(), current_time: now.to_text(), stock }),
            Err(reason) => Err(reason),
        }
    }

    /// The text of the time label.
    pub fn time_label(&self) -> (text: String)
        ensures
            text@ == self@.current_time,
    {
        self.current_time.clone()
    }

    /// The text of the quote label.
    pub fn stock_label(&self) -> (text: String)
        ensures
            text@ == self@.stock,
    {
        self.stock.clone()
    }
}

} // verus!
