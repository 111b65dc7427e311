use crate::keys::KeyEvent;
use crate::keys::shift_left_selection;
use crate::keys::spec_shift_left_selection;
use crate::range::SelectionRange;
use crate::range::spec_select_backward;
use vstd::prelude::*;

verus! {

/// Inserted runs at most this many characters long may be re-selected by
/// simulated shift+left presses when the native range write fails.  Above
/// the bound no fallback re-selection is attempted — a cost/latency
/// tradeoff, an accepted limitation rather than a bug.
pub const SHORT_STRING_BOUND: usize = 50;

/// The settle delay granted to the target application after the paste
/// combo, in milliseconds, before the selection is touched.
pub const PASTE_SETTLE_MS: u64 = 100;

/// How an injection begins: empty input is a no-op; anything else is pasted
/// through the clipboard, and its character count — taken before the text
/// moves — drives the re-selection step.
#[derive(Debug, Clone, Copy, PartialEq, Eq, Structural)]
pub enum InjectStart {
    Skip,
    Paste { char_count: usize },
}

/// Decides how an injection of `text` begins.
pub fn begin_injection(text: &str) -> (r: InjectStart)
    ensures
        match r {
            InjectStart::Skip => text@.len() == 0,
            InjectStart::Paste { char_count } => text@.len() > 0 && char_count == text@.len(),
        },
{
    if text.is_empty() {
        InjectStart::Skip
    } else {
        InjectStart::Paste { char_count: text.unicode_len() }
    }
}

/// How many characters the fallback re-selects once the native range write
/// has failed: all of them within the short-string bound, none above it.
pub open spec fn spec_fallback_reselect(char_count: nat) -> Option<nat> {
    if char_count <= SHORT_STRING_BOUND {
        Some(char_count)
    } else {
        None
    }
}

/// The caret once a paste has replaced the selection starting at `start`
/// with a run of `char_count` characters: at the end of the inserted run,
/// nothing highlighted.
pub open spec fn spec_caret_after_paste(start: int, char_count: int) -> int {
    start + char_count
}

/// The selection that `n` shift+left presses leave, starting from a caret:
/// each press extends the highlight one character leftward, stopping at the
/// start of the text.
pub open spec fn spec_shift_left_result(caret: int, n: int) -> (int, int) {
    if n <= caret {
        (caret - n, n)
    } else {
        (0, caret)
    }
}

/// The selection once the fallback decision has been acted on: untouched
/// when the plan is empty, extended leftward otherwise.
pub open spec fn spec_selection_after_fallback(caret: int, plan: Option<nat>) -> (int, int) {
    match plan {
        Some(n) => spec_shift_left_result(caret, n as int),
        None => (caret, 0),
    }
}

/// The fallback re-selection plan once the native range write has failed:
/// within the short-string bound, the shift+left key plan covering exactly
/// `char_count` characters; above it, nothing.
pub fn fallback_reselect_plan(char_count: usize) -> (r: Option<Vec<KeyEvent>>)
    ensures
        match spec_fallback_reselect(char_count as nat) {
            Some(n) => r matches Some(events) && events@ == spec_shift_left_selection(n),
            None => r is None,
        },
{
    if char_count <= SHORT_STRING_BOUND {
        Some(shift_left_selection(char_count))
    } else {
        None
    }
}

/// The whole re-selection decision after the paste has settled: nothing
/// when the target is not editable, nothing when the native range write
/// already succeeded, otherwise the fallback plan.
pub fn reselect_decision(editable: bool, native_select_ok: bool, char_count: usize) -> (r:
    Option<Vec<KeyEvent>>)
    ensures
        !editable ==> r is None,
        editable && native_select_ok ==> r is None,
        editable && !native_select_ok ==> match spec_fallback_reselect(char_count as nat) {
            Some(n) => r matches Some(events) && events@ == spec_shift_left_selection(n),
            None => r is None,
        },
{
    if !editable {
        None
    } else if native_select_ok {
        None
    } else {
        fallback_reselect_plan(char_count)
    }
}

/// The selection simulation accompanying the plain paste command, which
/// skips the native attempt: only non-empty runs within the short-string
/// bound are re-selected.
pub fn paste_selection_plan(char_count: usize) -> (r: Option<Vec<KeyEvent>>)
    ensures
        1 <= char_count <= SHORT_STRING_BOUND ==> (r matches Some(events) && events@
            == spec_shift_left_selection(char_count as nat)),
        char_count == 0 || char_count > SHORT_STRING_BOUND ==> r is None,
{
    if 1 <= char_count && char_count <= SHORT_STRING_BOUND {
        Some(shift_left_selection(char_count))
    } else {
        None
    }
}

/// Law: for non-empty runs within the short-string bound, injection followed
/// by a read of the selection yields a range of length exactly `char_count`
/// ending at the insertion point — under either re-selection strategy, the
/// native backward range write or the simulated shift+left presses.
pub proof fn lemma_injection_reselects_exactly(sel: SelectionRange, char_count: u64)
    requires
        0 < char_count <= SHORT_STRING_BOUND as u64,
        sel.start + char_count <= u64::MAX,
    ensures
        ({
            let caret: u64 = (sel.start + char_count) as u64;
            let native = spec_select_backward(SelectionRange { start: caret, length: 0 }, char_count);
            let simulated = spec_shift_left_result(caret as int, char_count as int);
            &&& native.length == char_count
            &&& native.spec_end() == caret
            &&& simulated.1 == char_count
            &&& simulated.0 + simulated.1 == caret
        }),
{
}

/// Law: above the short-string bound, when the native range write has
/// failed, no re-selection side effect occurs — the selection stays exactly
/// the caret the paste left, an absent highlight rather than a wrong one.
pub proof fn lemma_no_reselect_above_bound(caret: int, char_count: nat)
    requires
        caret >= 0,
        char_count > SHORT_STRING_BOUND,
    ensures
        spec_selection_after_fallback(caret, spec_fallback_reselect(char_count)) == (caret, 0int),
{
}

} // verus!
