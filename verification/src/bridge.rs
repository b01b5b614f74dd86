//! Decisions of the progress-callback bridge.
//!
//! The bridge itself — boxing the caller's callable, passing its address as
//! an opaque context word, and the fixed-signature trampoline the native
//! engine calls back through — lives in the unverified shell. What can be
//! decided from plain values is here: whether a trampoline and a context
//! are passed at all (always both or neither), and what counts as a
//! plausible stream of numeric progress reports. Fractional progress is
//! carried as parts per million, so that the range check is exact.

use vstd::prelude::*;

verus! {

/// Full progress, in parts per million: a fractional progress value of one
/// maps to this, and no plausible report exceeds it.
pub const PROGRESS_SCALE: u64 = 1000000;

/// The report is within the unit range.
pub open spec fn spec_progress_in_range(p: u64) -> bool {
    p <= PROGRESS_SCALE
}

pub fn progress_in_range(p: u64) -> (r: bool)
    ensures
        r == spec_progress_in_range(p),
{
    p <= PROGRESS_SCALE
}

/// A plausible stream of numeric progress reports: every report within the
/// unit range, and no report behind an earlier one.
pub open spec fn spec_report_plausible(report: Seq<u64>) -> bool {
    &&& forall|i: int| 0 <= i < report.len() ==> spec_progress_in_range(#[trigger] report[i])
    &&& forall|i: int, j: int| 0 <= i <= j < report.len() ==> report[i] <= report[j]
}

/// Whether a collected stream of progress reports is plausible: within the
/// unit range throughout and never decreasing.
pub fn report_plausible(report: &Vec<u64>) -> (r: bool)
    ensures
        r == spec_report_plausible(report@),
{
    let mut k: usize = 0;
    while k < report.len()
        invariant
            k <= report@.len(),
            forall|i: int| 0 <= i < k ==> spec_progress_in_range(#[trigger] report@[i]),
            forall|i: int, j: int| 0 <= i <= j < k ==> report@[i] <= report@[j],
        decreases report@.len() - k,
    {
        if !progress_in_range(report[k]) {
            return false;
        }
        if k > 0 && report[k - 1] > report[k] {
            return false;
        }
        k = k + 1;
    }
    true
}

/// What is handed to a native call that can report progress: whether a
/// trampoline function is passed, and whether a context word is passed.
/// A trampoline without its context, or a context without its trampoline,
/// is the defect this pairing rules out.
#[derive(Clone, Copy, Debug, PartialEq, Eq, Structural)]
pub struct CallbackWiring {
    pub pass_trampoline: bool,
    pub pass_context: bool,
}

impl CallbackWiring {
    /// Trampoline and context are passed together or not at all.
    pub open spec fn matched(self) -> bool {
        self.pass_trampoline == self.pass_context
    }
}

/// Decide the wiring of a native call: with no callback supplied, a null
/// trampoline and a null context, and the call proceeds without progress
/// reporting; with one, both are passed, and the shell keeps the callable's
/// storage alive for the call's whole duration.
pub fn wire_callback(has_callback: bool) -> (w: CallbackWiring)
    ensures
        w.pass_trampoline == has_callback,
        w.pass_context == has_callback,
        w.matched(),
{
    CallbackWiring { pass_trampoline: has_callback, pass_context: has_callback }
}

} // verus!
