use textgo::keys::{
    click_key, combo_modifier, copy_combo, paste_combo, press_combo, release_all_modifiers,
    shift_left_selection, Direction, Key, KeyEvent, Platform,
};

fn ev(key: Key, direction: Direction) -> KeyEvent {
    KeyEvent { key, direction }
}

#[test]
fn modifier_is_meta_on_macos_control_elsewhere() {
    assert_eq!(combo_modifier(Platform::MacOs), Key::Meta);
    assert_eq!(combo_modifier(Platform::Other), Key::Control);
}

#[test]
fn release_all_modifiers_releases_each_once() {
    let events = release_all_modifiers();
    assert_eq!(
        events,
        vec![
            ev(Key::Meta, Direction::Release),
            ev(Key::Control, Direction::Release),
            ev(Key::Alt, Direction::Release),
            ev(Key::Shift, Direction::Release),
        ]
    );
}

#[test]
fn copy_combo_on_macos() {
    let events = copy_combo(Platform::MacOs);
    assert_eq!(
        events,
        vec![
            ev(Key::Meta, Direction::Release),
            ev(Key::Control, Direction::Release),
            ev(Key::Alt, Direction::Release),
            ev(Key::Shift, Direction::Release),
            ev(Key::Meta, Direction::Press),
            ev(Key::Unicode('c'), Direction::Click),
            ev(Key::Meta, Direction::Release),
        ]
    );
}

#[test]
fn paste_combo_elsewhere_uses_control() {
    let events = paste_combo(Platform::Other);
    assert_eq!(
        events,
        vec![
            ev(Key::Meta, Direction::Release),
            ev(Key::Control, Direction::Release),
            ev(Key::Alt, Direction::Release),
            ev(Key::Shift, Direction::Release),
            ev(Key::Control, Direction::Press),
            ev(Key::Unicode('v'), Direction::Click),
            ev(Key::Control, Direction::Release),
        ]
    );
}

#[test]
fn press_combo_wraps_character_key() {
    let events = press_combo(Platform::MacOs, 'x');
    assert_eq!(events[5], ev(Key::Unicode('x'), Direction::Click));
    assert_eq!(events.len(), 7);
}

#[test]
fn click_key_builds_single_click() {
    assert_eq!(click_key(Key::LeftArrow), ev(Key::LeftArrow, Direction::Click));
}

#[test]
fn shift_left_holds_shift_around_clicks() {
    let events = shift_left_selection(3);
    assert_eq!(
        events,
        vec![
            ev(Key::Shift, Direction::Press),
            ev(Key::LeftArrow, Direction::Click),
            ev(Key::LeftArrow, Direction::Click),
            ev(Key::LeftArrow, Direction::Click),
            ev(Key::Shift, Direction::Release),
        ]
    );
}

#[test]
fn shift_left_zero_clicks_still_balances_shift() {
    let events = shift_left_selection(0);
    assert_eq!(
        events,
        vec![ev(Key::Shift, Direction::Press), ev(Key::Shift, Direction::Release)]
    );
}

#[test]
fn no_plan_ends_holding_a_modifier() {
    // The modifier-neutrality law on concrete plans: for every plan, the last
    // event touching each modifier is not a press.
    let plans = vec![
        release_all_modifiers(),
        copy_combo(Platform::MacOs),
        copy_combo(Platform::Other),
        paste_combo(Platform::MacOs),
        paste_combo(Platform::Other),
        shift_left_selection(5),
    ];
    for plan in plans {
        for modifier in [Key::Meta, Key::Control, Key::Alt, Key::Shift] {
            let held = plan
                .iter()
                .rev()
                .find(|e| e.key == modifier)
                .map(|e| e.direction == Direction::Press)
                .unwrap_or(false);
            assert!(!held);
        }
    }
}
