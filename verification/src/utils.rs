//! Helpers for talking to the user.

use crate::text::trim;
use crate::text::trimmed;
use vstd::prelude::*;

verus! {

/// The answer that a line typed at a prompt holds: the line without the
/// white space around it, the line end included.
pub fn prompt(line: &str) -> (r: String)
    ensures
        r@ == trimmed(line@),
{
    trim(line)
}

} // verus!
