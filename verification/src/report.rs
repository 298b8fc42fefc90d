//! The line that tells how many headlines were found.

use vstd::prelude::*;
use crate::decimal::{decimal, push_decimal};

verus! {

/// The line for `count` headlines.
pub open spec fn count_line_text(count: nat) -> Seq<char> {
    "Number of articles scraped: "@ + decimal(count)
}

/// Makes the line for `count` headlines.
pub fn count_line(count: usize) -> (line: String)
    ensures
        line@ == count_line_text(count as nat),
{
    let mut line = String::from_str("Number of articles scraped: ");
    push_decimal(&mut line, count as u64);
    line
}

} // verus!
