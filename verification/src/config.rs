//! What the configuration leaves open.

use crate::text::{parse_u64, parsed_u64};
use vstd::prelude::*;

verus! {

/// The pause between two cycles when the configuration names none, in
/// seconds.
pub const DEFAULT_INTERVAL: u64 = 1800;

/// The pause between two cycles, in seconds, for what the configuration
/// holds: the number written there, and the default where nothing is written
/// or what is written is no number.
pub open spec fn interval_of(configured: Option<Seq<char>>) -> u64 {
    match configured {
        Some(text) => match parsed_u64(text) {
            Some(seconds) => seconds,
            None => DEFAULT_INTERVAL,
        },
        None => DEFAULT_INTERVAL,
    }
}

/// The model of an optional borrowed text.
pub open spec fn text_view(text: Option<&str>) -> Option<Seq<char>> {
    match text {
        Some(written) => Some(written@),
        None => None,
    }
}

/// The pause between two cycles, in seconds, for what the configuration
/// holds.
pub fn polling_interval(configured: Option<&str>) -> (seconds: u64)
    ensures
        seconds == interval_of(text_view(configured)),
{
    match configured {
        Some(text) => match parse_u64(text) {
            Some(seconds) => seconds,
            None => DEFAULT_INTERVAL,
        },
        None => DEFAULT_INTERVAL,
    }
}

} // verus!
