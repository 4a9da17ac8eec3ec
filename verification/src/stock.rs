//! The quote line, and the ways a fetch can fail.

use vstd::prelude::*;

verus! {

/// The one symbol whose quote is shown.
pub const SYMBOL: &'static str = "0700.HK";

/// What stands between the symbol and its closing price.
pub const CLOSE_LABEL: &'static str = " close: ";

/// Why the data source gave no closing price.
#[derive(Clone, Copy, Debug, PartialEq, Eq, Structural)]
pub enum FetchError {
    /// The request did not come back.
    NetworkError,
    /// The answer held no quote.
    NoDataAvailable,
    /// The connection to the provider could not be set up.
    ProviderInitError,
}

/// The line that shows a closing price: the symbol, the label, the price.
pub open spec fn quote_text(close: Seq<char>) -> Seq<char> {
    SYMBOL@ + CLOSE_LABEL@ + close
}

/// An answer of the data source by its characters: the closing price as it
/// is to be written, or the reason why there is none.
pub open spec fn answer_view(answer: Result<String, FetchError>) -> Result<Seq<char>, FetchError> {
    match answer {
        Ok(text) => Ok(text@),
        Err(reason) => Err(reason),
    }
}

/// What a fetch yields for an answer of the data source: the quote line of
/// the closing price, or the reason of the failure, unchanged.
pub open spec fn fetched_quote(answer: Result<Seq<char>, FetchError>) -> Result<
    Seq<char>,
    FetchError,
> {
    match answer {
        Ok(close) => Ok(quote_text(close)),
        Err(reason) => Err(reason),
    }
}

/// Writes the line that shows a closing price.
pub fn quote_line(close: &str) -> (line: String)
    ensures
        line@ == quote_text(close@),
{
    let mut line = String::from_str(SYMBOL);
    line.append(CLOSE_LABEL);
    line.append(close);
    line
}

/// Completes a fetch: the host has asked the data source for the latest
/// quote of `SYMBOL` and hands over what came back, the closing price in
/// writing or the reason why there is none. A price becomes the quote line;
/// a failure is passed on as it is, so that the caller can keep what it shows.
pub fn fetch_stock_data(answer: Result<String, FetchError>) -> (quote: Result<String, FetchError>)
    ensures
        answer_view(quote) == fetched_quote(answer_view(answer)),
{
    match answer {
        Ok(close) => Ok(quote_line(close.as_str())),
        Err(reason) => Err(reason),
    }
}

/// A quote line is as long as the symbol, the label and the price together,
/// so it is never empty.
pub proof fn lemma_quote_text_len(close: Seq<char>)
    ensures
        quote_text(close).len() == 15 + close.len(),
{
    reveal_strlit("0700.HK");
    reveal_strlit(" close: ");
}

} // verus!
