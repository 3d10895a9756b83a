//! The library's error type for extraction and session handling.

use vstd::prelude::*;

verus! {

/// Spec-level shape of a `ManabaError`, with strings as character sequences.
pub enum ErrorView {
    InvalidCookie,
    LoadCookie { reason: Seq<char> },
    Scrape { reason: Seq<char> },
    MalformedRow { row: int, expected: int },
    DateParse { text: Seq<char> },
}

/// What can go wrong while turning a fetched page into records, or while
/// assembling a session cookie.
///
/// `MalformedRow` and `DateParse` both signal schema drift: the page no
/// longer matches the fixed column layout or date format the extraction is
/// built against. `MalformedRow` names the offending row and the column
/// count the schema requires.
#[derive(Debug, Clone, PartialEq, Eq)]
pub enum ManabaError {
    InvalidCookie,
    LoadCookie(String),
    Scrape(String),
    MalformedRow { row: usize, expected: usize },
    DateParse { text: String },
}

impl View for ManabaError {
    type V = ErrorView;

    open spec fn view(&self) -> ErrorView {
        match *self {
            ManabaError::InvalidCookie => ErrorView::InvalidCookie,
            ManabaError::LoadCookie(ref s) => ErrorView::LoadCookie { reason: s@ },
            ManabaError::Scrape(ref s) => ErrorView::Scrape { reason: s@ },
            ManabaError::MalformedRow { row, expected } => ErrorView::MalformedRow {
                row: row as int,
                expected: expected as int,
            },
            ManabaError::DateParse { ref text } => ErrorView::DateParse { text: text@ },
        }
    }
}

} // verus!
