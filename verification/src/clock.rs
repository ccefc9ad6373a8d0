//! Timestamps as the desktop store writes them.
use vstd::prelude::*;

use crate::bindings::{since_unix_epoch, system_time_now, whole_seconds};
use crate::numtext::{decimal_digits, u64_to_text};
use crate::text::owned;

verus! {

/// The current Unix time in whole seconds, as decimal text; `0` when the clock
/// reads before the epoch.
pub fn now_ts_string() -> (ts: String)
    ensures
        exists|n: nat| ts@ == decimal_digits(n),
{
    let reading = system_time_now();
    match since_unix_epoch(&reading) {
        Some(elapsed) => u64_to_text(whole_seconds(&elapsed)),
        None => {
            let z = owned("0");
            proof {
                reveal_strlit("0");
                assert(z@ =~= decimal_digits(0));
            }
            z
        },
    }
}

} // verus!
