use textgo::clipboard::{ClipboardSnapshot, ClipboardTransaction, FormatTag};

fn snapshot_of(items: &[(FormatTag, &[u8])]) -> ClipboardSnapshot {
    let mut s = ClipboardSnapshot::empty();
    for (format, payload) in items {
        s.push_item(*format, payload.to_vec());
    }
    s
}

#[test]
fn empty_snapshot_restores_nothing() {
    // An empty backup must not fabricate formats: there is no restore
    // directive, and the action's leavings stay on the clipboard.
    let t = ClipboardTransaction::begin(ClipboardSnapshot::empty());
    assert!(t.restore_directive().is_none());
    let leavings = snapshot_of(&[(FormatTag::Text, b"scratch")]);
    let after = t.finish(leavings.clone());
    assert_eq!(after, leavings);
}

#[test]
fn nonempty_snapshot_restored_byte_for_byte() {
    // Whatever the wrapped action left behind, the restore step brings back
    // exactly the captured formats and payloads.
    let original = snapshot_of(&[
        (FormatTag::Text, b"hello"),
        (FormatTag::Html, b"<b>hello</b>"),
        (FormatTag::Image, &[0u8, 159, 146, 150]),
    ]);
    let t = ClipboardTransaction::begin(original.clone());
    let directive = t.restore_directive().cloned();
    assert_eq!(directive, Some(original.clone()));
    let leavings = snapshot_of(&[(FormatTag::Text, b"the action wrote this")]);
    let after = t.finish(leavings);
    assert_eq!(after, original);
}

#[test]
fn restore_ignores_action_failure_leavings() {
    // Even when the action failed half way and cleared the clipboard, the
    // snapshot comes back unchanged.
    let original = snapshot_of(&[(FormatTag::Files, b"/tmp/a\n/tmp/b")]);
    let t = ClipboardTransaction::begin(original.clone());
    let after = t.finish(ClipboardSnapshot::empty());
    assert_eq!(after, original);
}

#[test]
fn snapshot_is_empty_reports_contents() {
    assert!(ClipboardSnapshot::empty().is_empty());
    assert!(!snapshot_of(&[(FormatTag::Rtf, b"x")]).is_empty());
}
