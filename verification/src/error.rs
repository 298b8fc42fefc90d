//! The ways in which a run can fail inside this library.

use vstd::prelude::*;

verus! {

/// Why a page gave no list of headlines.
#[derive(Debug, Clone, Copy, PartialEq, Eq)]
pub enum ScrapeError {
    /// The site answered with a status other than the accepted one.
    UnexpectedStatus { status: u16 },
    /// The selector is not one that the selector parser accepts.
    InvalidSelector,
}

impl ScrapeError {
    /// A line for the person running the program.
    pub fn message(&self) -> (text: &'static str)
        ensures
            text@ == match *self {
                ScrapeError::UnexpectedStatus { .. } => "Something went wrong fetching site"@,
                ScrapeError::InvalidSelector => "The article selector is not a valid selector"@,
            },
    {
        match self {
            ScrapeError::UnexpectedStatus { .. } => "Something went wrong fetching site",
            ScrapeError::InvalidSelector => "The article selector is not a valid selector",
        }
    }
}

} // verus!
