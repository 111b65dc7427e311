use vstd::prelude::*;

verus! {

/// A clipboard content-format tag.  These are the formats the transaction
/// protocol backs up and restores.
#[derive(Debug, Clone, Copy, PartialEq, Eq, Structural)]
pub enum FormatTag {
    Text,
    Rtf,
    Html,
    Image,
    Files,
}

/// One format's payload, byte for byte.
#[derive(Debug, Clone, PartialEq)]
pub struct ClipboardItem {
    pub format: FormatTag,
    pub payload: Vec<u8>,
}

impl View for ClipboardItem {
    type V = (FormatTag, Seq<u8>);

    open spec fn view(&self) -> (FormatTag, Seq<u8>) {
        (self.format, self.payload@)
    }
}

/// Everything the clipboard held at one moment: one entry per format that
/// was present, in the order the formats were read.  A format absent from
/// the mapping was absent from the clipboard at snapshot time, and restore
/// must not fabricate it.
#[derive(Debug, Clone, PartialEq)]
pub struct ClipboardSnapshot {
    pub items: Vec<ClipboardItem>,
}

impl View for ClipboardSnapshot {
    type V = Seq<(FormatTag, Seq<u8>)>;

    open spec fn view(&self) -> Seq<(FormatTag, Seq<u8>)> {
        self.items@.map_values(|it: ClipboardItem| it@)
    }
}

impl ClipboardSnapshot {
    /// The snapshot of a clipboard that held nothing.
    pub fn empty() -> (r: Self)
        ensures
            r@ =~= Seq::<(FormatTag, Seq<u8>)>::empty(),
    {
        ClipboardSnapshot { items: Vec::new() }
    }

    /// Records that `format` was present with the given payload.
    pub fn push_item(&mut self, format: FormatTag, payload: Vec<u8>)
        ensures
            final (self)@ =~= old(self)@.push((format, payload@)),
    {
        self.items.push(ClipboardItem { format, payload });
    }

    /// True when no format was present.
    pub fn is_empty(&self) -> (r: bool)
        ensures
            r == (self@.len() == 0),
    {
        self.items.len() == 0
    }
}

/// The backup→act→restore protocol around a clipboard-perturbing action.
/// The transaction holds the snapshot taken when it began and never alters
/// it, so whatever the wrapped action wrote — and whether it succeeded or
/// failed — the restore step puts back exactly what was captured.
#[derive(Debug)]
pub struct ClipboardTransaction {
    snapshot: ClipboardSnapshot,
}

impl ClipboardTransaction {
    /// What was captured when the transaction began.
    pub closed spec fn snapshot_view(&self) -> Seq<(FormatTag, Seq<u8>)> {
        self.snapshot@
    }

    /// Opens a transaction around a snapshot of the current clipboard.  A
    /// totally empty clipboard is tolerated: its snapshot is the empty
    /// mapping.
    pub fn begin(observed: ClipboardSnapshot) -> (t: Self)
        ensures
            t.snapshot_view() == observed@,
    {
        ClipboardTransaction { snapshot: observed }
    }

    /// The restore directive: what the shell must write back to the
    /// clipboard once the wrapped action has run.  `None` when the snapshot
    /// was empty — restoring nothing, rather than fabricating formats that
    /// were never there.
    pub fn restore_directive(&self) -> (r: Option<&ClipboardSnapshot>)
        ensures
            match r {
                Some(s) => self.snapshot_view().len() > 0 && s@ == self.snapshot_view(),
                None => self.snapshot_view().len() == 0,
            },
    {
        if self.snapshot.items.len() == 0 {
            None
        } else {
            Some(&self.snapshot)
        }
    }

    /// Applies the restore step to a modeled clipboard: the clipboard the
    /// wrapped action left behind becomes the snapshot again, unless the
    /// snapshot was empty.
    pub fn finish(self, at_end: ClipboardSnapshot) -> (r: ClipboardSnapshot)
        ensures
            r@ == clipboard_after_restore(self.snapshot_view(), at_end@),
    {
        if self.snapshot.items.len() == 0 {
            at_end
        } else {
            self.snapshot
        }
    }
}

/// What the clipboard holds once a transaction's restore step has run, given
/// what it held when the transaction began and what the wrapped action left
/// behind.
pub open spec fn clipboard_after_restore(
    snapshot: Seq<(FormatTag, Seq<u8>)>,
    at_end: Seq<(FormatTag, Seq<u8>)>,
) -> Seq<(FormatTag, Seq<u8>)> {
    if snapshot.len() == 0 {
        at_end
    } else {
        snapshot
    }
}

/// Law: for every non-empty original snapshot, a transaction leaves the
/// clipboard's format set and payloads byte-identical to the snapshot,
/// whatever state the wrapped action left behind — including when the action
/// failed and left its own writes in place.
pub proof fn lemma_transaction_restores_clipboard(
    snapshot: Seq<(FormatTag, Seq<u8>)>,
    at_end: Seq<(FormatTag, Seq<u8>)>,
)
    requires
        snapshot.len() > 0,
    ensures
        clipboard_after_restore(snapshot, at_end) == snapshot,
{
}

} // verus!
