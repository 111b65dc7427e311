use textgo::inject::{
    begin_injection, fallback_reselect_plan, paste_selection_plan, reselect_decision, InjectStart,
    PASTE_SETTLE_MS, SHORT_STRING_BOUND,
};
use textgo::keys::{Direction, Key, KeyEvent};
use textgo::range::{select_backward, SelectionRange};

#[test]
fn empty_text_is_a_no_op() {
    assert_eq!(begin_injection(""), InjectStart::Skip);
}

#[test]
fn nonempty_text_counts_characters_before_the_move() {
    assert_eq!(begin_injection("héllo"), InjectStart::Paste { char_count: 5 });
}

#[test]
fn bound_and_settle_constants() {
    assert_eq!(SHORT_STRING_BOUND, 50);
    assert_eq!(PASTE_SETTLE_MS, 100);
}

#[test]
fn fallback_plan_within_bound_selects_each_character() {
    let plan = fallback_reselect_plan(2).expect("within the bound");
    assert_eq!(
        plan,
        vec![
            KeyEvent { key: Key::Shift, direction: Direction::Press },
            KeyEvent { key: Key::LeftArrow, direction: Direction::Click },
            KeyEvent { key: Key::LeftArrow, direction: Direction::Click },
            KeyEvent { key: Key::Shift, direction: Direction::Release },
        ]
    );
}

#[test]
fn fallback_plan_at_bound_exists() {
    let plan = fallback_reselect_plan(SHORT_STRING_BOUND).expect("at the bound");
    assert_eq!(plan.len(), SHORT_STRING_BOUND + 2);
}

#[test]
fn fallback_plan_above_bound_is_absent() {
    // Above the bound no re-selection is attempted: absence of highlight is
    // acceptable, a wrong highlight is not.
    assert_eq!(fallback_reselect_plan(SHORT_STRING_BOUND + 1), None);
}

#[test]
fn no_reselect_when_not_editable() {
    assert_eq!(reselect_decision(false, false, 3), None);
}

#[test]
fn no_reselect_when_native_write_succeeded() {
    assert_eq!(reselect_decision(true, true, 3), None);
}

#[test]
fn reselect_falls_back_when_native_write_failed() {
    let plan = reselect_decision(true, false, 1).expect("short run");
    assert_eq!(plan.len(), 3);
    assert_eq!(reselect_decision(true, false, 200), None);
}

#[test]
fn paste_selection_plan_bounds() {
    assert_eq!(paste_selection_plan(0), None);
    assert!(paste_selection_plan(1).is_some());
    assert!(paste_selection_plan(SHORT_STRING_BOUND).is_some());
    assert_eq!(paste_selection_plan(SHORT_STRING_BOUND + 1), None);
}

#[test]
fn reselection_covers_exactly_the_inserted_run() {
    // Paste 4 characters over a selection starting at 10: the caret lands at
    // 14, and the native backward re-selection highlights exactly those 4,
    // ending at the caret.
    let caret = SelectionRange { start: 14, length: 0 };
    let r = select_backward(caret, 4);
    assert_eq!(r, SelectionRange { start: 10, length: 4 });
    assert_eq!(r.start + r.length, 14);
}
