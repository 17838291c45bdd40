//! The checks that decide whether the browser landed where a step expects.

use vstd::prelude::*;
use crate::text::{contains, contains_text, same_text};

verus! {

/// The marker that every thread address carries.
pub open spec fn thread_marker() -> Seq<char> {
    "topic"@
}

/// Whether the address read back is exactly the one that was asked for.
pub fn landed(requested: &str, current: &str) -> (yes: bool)
    ensures
        yes == (requested@ == current@),
{
    same_text(requested, current)
}

/// Whether the address read back is that of a thread.
pub fn reached_thread(current: &str) -> (yes: bool)
    ensures
        yes == contains_text(current@, thread_marker()),
{
    contains(current, "topic")
}

} // verus!
