use crate::error::EngineError;
use vstd::prelude::*;

verus! {

/// The fixed interval between two clipboard polls, in milliseconds.
pub const POLL_INTERVAL_MS: u64 = 5;

/// The overall wall-clock budget of the fallback poll, in milliseconds.
pub const POLL_TIMEOUT_MS: u64 = 200;

/// How many poll attempts fit in the budget.
pub const MAX_POLL_ATTEMPTS: u64 = POLL_TIMEOUT_MS / POLL_INTERVAL_MS;

/// Gates the native path on the platform's accessibility trust: an
/// untrusted process fails with `PermissionDenied` before any further native
/// call is attempted.  On platforms without such a trust check the shell
/// passes `true`.
pub fn permission_gate(trusted: bool) -> (r: Result<(), EngineError>)
    ensures
        trusted ==> r is Ok,
        !trusted ==> r == Result::<(), EngineError>::Err(EngineError::PermissionDenied),
{
    if trusted {
        Ok(())
    } else {
        Err(EngineError::PermissionDenied)
    }
}

/// Decides the first stage of capture from the native attempt's outcome.
/// Non-empty text read through the accessibility layer is the result and the
/// clipboard is never touched; an error or empty text sends the caller to
/// the clipboard fallback.  Native failure is recovered locally, never
/// raised.
pub fn capture_from_native(native: Result<String, EngineError>) -> (r: Option<String>)
    ensures
        match r {
            Some(t) => native matches Ok(s) && s@ == t@ && t@.len() > 0,
            None => native matches Err(_) || (native matches Ok(s) && s@.len() == 0),
        },
{
    match native {
        Ok(text) => {
            if text.as_str().is_empty() {
                None
            } else {
                Some(text)
            }
        },
        Err(_) => None,
    }
}

/// The selected text of the first child that exposes one, scanned in child
/// order — first match wins, and no guarantee of uniqueness is attempted.
pub open spec fn spec_first_child_text(children: Seq<Option<String>>) -> Option<Seq<char>>
    decreases children.len(),
{
    if children.len() == 0 {
        None
    } else {
        match children[0] {
            Some(t) => Some(t@),
            None => spec_first_child_text(children.drop_first()),
        }
    }
}

/// What the native layer's element scan yields: the focused element's own
/// selected text when present, else the first child's, else the empty
/// string.
pub open spec fn spec_native_selection(
    focused: Option<String>,
    children: Seq<Option<String>>,
) -> Seq<char> {
    match focused {
        Some(t) => t@,
        None => match spec_first_child_text(children) {
            Some(t) => t,
            None => Seq::empty(),
        },
    }
}

/// A prefix of children without selected text does not change which child's
/// text is found first.
proof fn lemma_first_child_text_skip(children: Seq<Option<String>>, i: int)
    requires
        0 <= i <= children.len(),
        forall|j: int| 0 <= j < i ==> children[j] is None,
    ensures
        spec_first_child_text(children) == spec_first_child_text(children.skip(i)),
    decreases i,
{
    if i == 0 {
        assert(children.skip(0) =~= children);
    } else {
        assert(children[0] is None);
        lemma_first_child_text_skip(children.drop_first(), i - 1);
        assert(children.drop_first().skip(i - 1) =~= children.skip(i));
    }
}

/// Reads the selected text the native layer exposes: the focused element's
/// own selected-text attribute when present, otherwise the first child
/// element exposing one, otherwise the empty string.
pub fn first_selected_text(focused: Option<String>, children: &Vec<Option<String>>) -> (r: String)
    ensures
        r@ == spec_native_selection(focused, children@),
{
    match focused {
        Some(t) => t,
        None => {
            let mut i: usize = 0;
            while i < children.len()
                invariant
                    focused is None,
                    i <= children@.len(),
                    forall|j: int| 0 <= j < i ==> children@[j] is None,
                decreases children@.len() - i,
            {
                match &children[i] {
                    Some(t) => {
                        proof {
                            lemma_first_child_text_skip(children@, i as int);
                            assert(children@.skip(i as int)[0] == children@[i as int]);
                        }
                        return t.clone();
                    },
                    None => {},
                }
                i = i + 1;
            }
            proof {
                lemma_first_child_text_skip(children@, i as int);
            }
            String::new()
        },
    }
}

/// The bounded clipboard poll of the fallback path.  Each tick the shell
/// sleeps one interval, reads the clipboard's text, and reports what it saw;
/// the poll finishes on the first non-empty text or when the attempt budget
/// is spent.  The budget makes the poll's worst-case latency a first-class
/// property rather than a blocking wait.
#[derive(Debug)]
pub struct FallbackPoll {
    attempts: u64,
    captured: Option<String>,
}

impl FallbackPoll {
    /// How many poll attempts have been spent.
    pub closed spec fn spec_attempts(&self) -> u64 {
        self.attempts
    }

    /// The non-empty text captured so far, if any.
    pub closed spec fn spec_captured(&self) -> Option<Seq<char>> {
        match self.captured {
            Some(t) => Some(t@),
            None => None,
        }
    }

    /// The attempt count never exceeds the budget, and only non-empty text
    /// is ever captured.
    pub closed spec fn wf(&self) -> bool {
        &&& self.attempts <= MAX_POLL_ATTEMPTS
        &&& match self.captured {
            Some(t) => t@.len() > 0,
            None => true,
        }
    }

    /// Total time the shell has slept for this poll, in milliseconds.
    pub open spec fn spec_elapsed_ms(&self) -> int {
        self.spec_attempts() * POLL_INTERVAL_MS
    }

    /// A fresh poll: no attempt spent, nothing captured.
    pub fn start() -> (s: Self)
        ensures
            s.wf(),
            s.spec_attempts() == 0,
            s.spec_captured() is None,
    {
        FallbackPoll { attempts: 0, captured: None }
    }

    /// True while another tick is allowed: nothing captured yet and budget
    /// remains.
    pub fn pending(&self) -> (r: bool)
        ensures
            r == (self.spec_captured() is None && self.spec_attempts() < MAX_POLL_ATTEMPTS),
    {
        self.captured.is_none() && self.attempts < MAX_POLL_ATTEMPTS
    }

    /// Records one tick: the shell slept one interval and then read `seen`
    /// from the clipboard (`None` when the read itself failed).  The first
    /// non-empty text finishes the poll; anything else spends the attempt.
    pub fn observe(&mut self, seen: Option<String>)
        requires
            old(self).wf(),
            old(self).spec_captured() is None,
            old(self).spec_attempts() < MAX_POLL_ATTEMPTS,
        ensures
            final (self).wf(),
            final (self).spec_attempts() == old(self).spec_attempts() + 1,
            match seen {
                Some(t) => final (self).spec_captured() == (if t@.len() > 0 {
                    Some(t@)
                } else {
                    None::<Seq<char>>
                }),
                None => final (self).spec_captured() is None,
            },
    {
        self.attempts = self.attempts + 1;
        match seen {
            Some(t) => {
                if !t.as_str().is_empty() {
                    self.captured = Some(t);
                }
            },
            None => {},
        }
    }

    /// The poll's result: the captured text, or the empty string when the
    /// budget ran out — a timeout degrades to an empty result and is logged
    /// as "possibly no text selected", never propagated as an error.
    pub fn outcome(self) -> (r: String)
        ensures
            match self.spec_captured() {
                Some(t) => r@ == t,
                None => r@.len() == 0,
            },
    {
        match self.captured {
            Some(t) => t,
            None => String::new(),
        }
    }
}

/// Law: the fallback poll never sleeps past its configured timeout budget —
/// the attempts spent, at one interval of sleep each, total at most the
/// timeout.
pub proof fn lemma_poll_within_budget(p: FallbackPoll)
    requires
        p.wf(),
    ensures
        p.spec_elapsed_ms() <= POLL_TIMEOUT_MS,
{
    assert(p.spec_attempts() <= MAX_POLL_ATTEMPTS);
    assert(p.spec_attempts() * POLL_INTERVAL_MS <= MAX_POLL_ATTEMPTS * POLL_INTERVAL_MS)
        by (nonlinear_arith)
        requires
            p.spec_attempts() <= MAX_POLL_ATTEMPTS,
    ;
}

} // verus!
