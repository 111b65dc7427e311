use vstd::prelude::*;

verus! {

/// A key the synthetic keyboard acts on.
#[derive(Debug, Clone, Copy, PartialEq, Eq, Structural)]
pub enum Key {
    Meta,
    Control,
    Alt,
    Shift,
    LeftArrow,
    Unicode(char),
}

/// What is done with a key: press and hold, release, or press-and-release.
#[derive(Debug, Clone, Copy, PartialEq, Eq, Structural)]
pub enum Direction {
    Press,
    Release,
    Click,
}

/// One synthetic keyboard event.
#[derive(Debug, Clone, Copy, PartialEq, Eq, Structural)]
pub struct KeyEvent {
    pub key: Key,
    pub direction: Direction,
}

/// The platform the engine runs on.  Only "macOS or not" matters to the key
/// plans: the copy/paste modifier is a static mapping, not a runtime choice.
#[derive(Debug, Clone, Copy, PartialEq, Eq, Structural)]
pub enum Platform {
    MacOs,
    Other,
}

/// The defensive prelude of every combo: release each modifier, so that a
/// residual modifier from the user's own keystroke cannot corrupt the
/// synthesized combo.
pub open spec fn spec_release_all_modifiers() -> Seq<KeyEvent> {
    seq![
        KeyEvent { key: Key::Meta, direction: Direction::Release },
        KeyEvent { key: Key::Control, direction: Direction::Release },
        KeyEvent { key: Key::Alt, direction: Direction::Release },
        KeyEvent { key: Key::Shift, direction: Direction::Release },
    ]
}

/// The modifier used for copy and paste combos on each platform.
pub open spec fn spec_combo_modifier(p: Platform) -> Key {
    match p {
        Platform::MacOs => Key::Meta,
        Platform::Other => Key::Control,
    }
}

/// A full combo plan: release every modifier, then hold the platform's combo
/// modifier around one click of the character key.
pub open spec fn spec_combo(p: Platform, c: char) -> Seq<KeyEvent> {
    spec_release_all_modifiers() + seq![
        KeyEvent { key: spec_combo_modifier(p), direction: Direction::Press },
        KeyEvent { key: Key::Unicode(c), direction: Direction::Click },
        KeyEvent { key: spec_combo_modifier(p), direction: Direction::Release },
    ]
}

/// The plan that extends the selection leftward by `n` characters: hold
/// Shift around `n` clicks of the left arrow.
pub open spec fn spec_shift_left_selection(n: nat) -> Seq<KeyEvent> {
    seq![KeyEvent { key: Key::Shift, direction: Direction::Press }]
        + Seq::new(n, |i: int| KeyEvent { key: Key::LeftArrow, direction: Direction::Click })
        + seq![KeyEvent { key: Key::Shift, direction: Direction::Release }]
}

/// The modifier used for copy and paste combos: Meta on macOS, Control
/// elsewhere.
pub fn combo_modifier(p: Platform) -> (r: Key)
    ensures
        r == spec_combo_modifier(p),
{
    match p {
        Platform::MacOs => Key::Meta,
        Platform::Other => Key::Control,
    }
}

/// One press-and-release of a single key.
pub fn click_key(k: Key) -> (r: KeyEvent)
    ensures
        r == (KeyEvent { key: k, direction: Direction::Click }),
{
    KeyEvent { key: k, direction: Direction::Click }
}

/// The events that defensively release every modifier.
pub fn release_all_modifiers() -> (r: Vec<KeyEvent>)
    ensures
        r@ == spec_release_all_modifiers(),
{
    let mut r: Vec<KeyEvent> = Vec::new();
    r.push(KeyEvent { key: Key::Meta, direction: Direction::Release });
    r.push(KeyEvent { key: Key::Control, direction: Direction::Release });
    r.push(KeyEvent { key: Key::Alt, direction: Direction::Release });
    r.push(KeyEvent { key: Key::Shift, direction: Direction::Release });
    proof {
        assert(r@ =~= spec_release_all_modifiers());
    }
    r
}

/// The events of a modifier+character combo, preceded by the defensive
/// release of every modifier.
pub fn press_combo(p: Platform, c: char) -> (r: Vec<KeyEvent>)
    ensures
        r@ == spec_combo(p, c),
{
    let modifier = combo_modifier(p);
    let mut r = release_all_modifiers();
    r.push(KeyEvent { key: modifier, direction: Direction::Press });
    r.push(KeyEvent { key: Key::Unicode(c), direction: Direction::Click });
    r.push(KeyEvent { key: modifier, direction: Direction::Release });
    proof {
        assert(r@ =~= spec_combo(p, c));
    }
    r
}

/// The copy combo for the platform.
pub fn copy_combo(p: Platform) -> (r: Vec<KeyEvent>)
    ensures
        r@ == spec_combo(p, 'c'),
{
    press_combo(p, 'c')
}

/// The paste combo for the platform.
pub fn paste_combo(p: Platform) -> (r: Vec<KeyEvent>)
    ensures
        r@ == spec_combo(p, 'v'),
{
    press_combo(p, 'v')
}

/// The events that extend the selection leftward by `n` characters.
pub fn shift_left_selection(n: usize) -> (r: Vec<KeyEvent>)
    requires
        n + 2 <= usize::MAX,
    ensures
        r@ == spec_shift_left_selection(n as nat),
{
    let mut r: Vec<KeyEvent> = Vec::new();
    r.push(KeyEvent { key: Key::Shift, direction: Direction::Press });
    let mut i: usize = 0;
    while i < n
        invariant
            i <= n,
            r@ == seq![KeyEvent { key: Key::Shift, direction: Direction::Press }]
                + Seq::new(i as nat, |j: int| KeyEvent {
                    key: Key::LeftArrow,
                    direction: Direction::Click,
                }),
        decreases n - i,
    {
        r.push(KeyEvent { key: Key::LeftArrow, direction: Direction::Click });
        i = i + 1;
        proof {
            assert(r@ =~= seq![KeyEvent { key: Key::Shift, direction: Direction::Press }]
                + Seq::new(i as nat, |j: int| KeyEvent {
                    key: Key::LeftArrow,
                    direction: Direction::Click,
                }));
        }
    }
    r.push(KeyEvent { key: Key::Shift, direction: Direction::Release });
    proof {
        assert(r@ =~= spec_shift_left_selection(n as nat));
    }
    r
}

/// Whether `m` is still held down after the events of `s` run in order,
/// starting from a state in which it is not held.  A click both presses and
/// releases, so it never leaves a key held.
pub open spec fn held_after(s: Seq<KeyEvent>, m: Key) -> bool
    decreases s.len(),
{
    if s.len() == 0 {
        false
    } else {
        let last = s[s.len() - 1];
        if last.key == m {
            last.direction == Direction::Press
        } else {
            held_after(s.drop_last(), m)
        }
    }
}

/// No modifier is left held once the events of `s` have run.
pub open spec fn leaves_no_modifier_held(s: Seq<KeyEvent>) -> bool {
    &&& !held_after(s, Key::Meta)
    &&& !held_after(s, Key::Control)
    &&& !held_after(s, Key::Alt)
    &&& !held_after(s, Key::Shift)
}

/// Events that never touch `m` do not change whether it is held.
pub proof fn lemma_held_after_extend(s1: Seq<KeyEvent>, s2: Seq<KeyEvent>, m: Key)
    requires
        forall|i: int| 0 <= i < s2.len() ==> s2[i].key != m,
    ensures
        held_after(s1 + s2, m) == held_after(s1, m),
    decreases s2.len(),
{
    if s2.len() == 0 {
        assert(s1 + s2 =~= s1);
    } else {
        let s2p = s2.drop_last();
        assert((s1 + s2).drop_last() =~= s1 + s2p);
        assert((s1 + s2)[(s1 + s2).len() - 1] == s2[s2.len() - 1]);
        lemma_held_after_extend(s1, s2p, m);
    }
}

/// Law: the defensive release plan leaves no modifier held.
pub proof fn lemma_release_all_leaves_no_modifier_held()
    ensures
        leaves_no_modifier_held(spec_release_all_modifiers()),
{
    reveal_with_fuel(held_after, 6);
}

/// Law: a combo plan leaves no modifier held, whatever the platform and the
/// character key: each modifier's last event in the plan is a release.
pub proof fn lemma_combo_leaves_no_modifier_held(p: Platform, c: char)
    ensures
        leaves_no_modifier_held(spec_combo(p, c)),
{
    reveal_with_fuel(held_after, 9);
}

/// Law: the shift+left-arrow selection plan leaves no modifier held, for any
/// number of arrow clicks: Shift's last event is a release, and no other
/// modifier occurs in the plan.
pub proof fn lemma_shift_left_leaves_no_modifier_held(n: nat)
    ensures
        leaves_no_modifier_held(spec_shift_left_selection(n)),
{
    let press = seq![KeyEvent { key: Key::Shift, direction: Direction::Press }];
    let mid = Seq::new(n, |i: int| KeyEvent { key: Key::LeftArrow, direction: Direction::Click });
    let release = seq![KeyEvent { key: Key::Shift, direction: Direction::Release }];
    let full = spec_shift_left_selection(n);
    assert(full =~= press + (mid + release));
    assert(full[full.len() - 1] == (KeyEvent { key: Key::Shift, direction: Direction::Release }));
    assert(!held_after(full, Key::Shift));
    assert forall|m: Key| m == Key::Meta || m == Key::Control || m == Key::Alt implies !held_after(
        full,
        m,
    ) by {
        lemma_held_after_extend(press, mid + release, m);
        reveal_with_fuel(held_after, 3);
    }
}

} // verus!
