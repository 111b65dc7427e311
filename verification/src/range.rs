use vstd::prelude::*;

verus! {

/// An offset/length pair describing which characters of a text-bearing
/// element are highlighted.  Offsets are character offsets in the element's
/// own text model.  A length of zero means "no selection, caret only".
#[derive(Debug, Clone, Copy, PartialEq, Eq, Structural)]
pub struct SelectionRange {
    pub start: u64,
    pub length: u64,
}

impl SelectionRange {
    /// The character offset one past the last selected character.
    pub open spec fn spec_end(self) -> int {
        self.start + self.length
    }

    /// True when nothing is highlighted and the range only marks the caret.
    pub open spec fn is_caret(self) -> bool {
        self.length == 0
    }

    /// The character offset one past the last selected character.
    pub fn end(&self) -> (r: u64)
        requires
            self.start + self.length <= u64::MAX,
        ensures
            r == self.spec_end(),
    {
        self.start + self.length
    }
}

/// The range that re-highlights the `char_count` characters ending where
/// `current` ends: the end offset is kept, the length becomes `char_count`,
/// and the start is clamped so it never goes below zero.
pub open spec fn spec_select_backward(current: SelectionRange, char_count: u64) -> SelectionRange {
    SelectionRange {
        start: if char_count <= current.spec_end() {
            (current.spec_end() - char_count) as u64
        } else {
            0
        },
        length: char_count,
    }
}

/// Computes the selection range that covers the `char_count` characters just
/// before the end of the current selection, the write-back of which lets a
/// caller re-highlight exactly the text it inserted.  When `char_count`
/// exceeds the available offset the start is clamped to zero and the length
/// is kept, so the new start is never negative.
pub fn select_backward(current: SelectionRange, char_count: u64) -> (r: SelectionRange)
    requires
        current.start + current.length <= u64::MAX,
    ensures
        r == spec_select_backward(current, char_count),
        r.length == char_count,
        char_count <= current.spec_end() ==> r.spec_end() == current.spec_end(),
        char_count > current.spec_end() ==> r.start == 0,
{
    let end = current.start + current.length;
    let new_start = if char_count <= end {
        end - char_count
    } else {
        0
    };
    SelectionRange { start: new_start, length: char_count }
}

/// The one-character range covering the last selected character, with which
/// the platform is asked for on-screen bounds.  `None` when nothing is
/// selected: a caret has no last character.
pub fn last_char_range(current: SelectionRange) -> (r: Option<SelectionRange>)
    requires
        current.start + current.length <= u64::MAX,
    ensures
        match r {
            Some(last) => current.length > 0 && last.start == current.spec_end() - 1
                && last.length == 1,
            None => current.is_caret(),
        },
{
    if current.length == 0 {
        None
    } else {
        Some(SelectionRange { start: current.start + current.length - 1, length: 1 })
    }
}

} // verus!
