//! Abstract input model: key events, the actions they map to, and the
//! keymap that binds them.

use vstd::prelude::*;

verus! {

/// A cursor movement direction.
#[derive(Clone, Copy, Debug, PartialEq, Eq, Structural)]
pub enum Direction {
    Left,
    Right,
    Up,
    Down,
}

/// An abstract editor action.
#[derive(Clone, Copy, Debug, PartialEq, Eq, Structural)]
pub enum ToriEvent {
    Quit,
    Move(Direction),
}

/// The keys the editor can bind; anything else is `Other` and unmappable.
#[derive(Clone, Copy, Debug, PartialEq, Eq, Structural)]
pub enum KeyCode {
    Char(char),
    Left,
    Right,
    Up,
    Down,
    Other,
}

/// Whether a key event is a press, an auto-repeat, or a release.
#[derive(Clone, Copy, Debug, PartialEq, Eq, Structural)]
pub enum KeyEventKind {
    Press,
    Repeat,
    Release,
}

/// One keyboard event: a key code, a modifier bitmask, and the event kind.
#[derive(Clone, Copy, Debug, PartialEq, Eq, Structural)]
pub struct KeyInput {
    pub code: KeyCode,
    /// Modifier bitmask; 0 means no modifier held.
    pub modifiers: u8,
    pub kind: KeyEventKind,
}

/// An event arriving from the terminal, already translated to plain values.
#[derive(Clone, Copy, Debug, PartialEq, Eq, Structural)]
pub enum InputEvent {
    /// The terminal was resized to (columns, rows).
    Resize(u16, u16),
    Key(KeyInput),
    /// Any event the editor does not react to.
    Other,
}

/// A key press of `c` with no modifiers.
pub open spec fn plain_press_spec(c: char) -> KeyInput {
    KeyInput { code: KeyCode::Char(c), modifiers: 0, kind: KeyEventKind::Press }
}

/// A press of a non-character key with no modifiers.
pub open spec fn special_press_spec(code: KeyCode) -> KeyInput {
    KeyInput { code: code, modifiers: 0, kind: KeyEventKind::Press }
}

/// The default bindings: `q` quits, the arrow keys move.
pub open spec fn default_keymap_spec() -> Seq<(KeyInput, ToriEvent)> {
    seq![
        (plain_press_spec('q'), ToriEvent::Quit),
        (special_press_spec(KeyCode::Left), ToriEvent::Move(Direction::Left)),
        (special_press_spec(KeyCode::Right), ToriEvent::Move(Direction::Right)),
        (special_press_spec(KeyCode::Up), ToriEvent::Move(Direction::Up)),
        (special_press_spec(KeyCode::Down), ToriEvent::Move(Direction::Down)),
    ]
}

/// The action bound to `k`: the first binding whose key equals `k`, if any.
pub open spec fn lookup_spec(m: Seq<(KeyInput, ToriEvent)>, k: KeyInput) -> Option<ToriEvent>
    decreases m.len(),
{
    if m.len() == 0 {
        None
    } else if m[0].0 == k {
        Some(m[0].1)
    } else {
        lookup_spec(m.drop_first(), k)
    }
}

/// A key press of `c` with no modifiers.
pub fn plain_press(c: char) -> (r: KeyInput)
    ensures
        r == plain_press_spec(c),
{
    KeyInput { code: KeyCode::Char(c), modifiers: 0, kind: KeyEventKind::Press }
}

/// A press of a non-character key with no modifiers.
pub fn special_press(code: KeyCode) -> (r: KeyInput)
    ensures
        r == special_press_spec(code),
{
    KeyInput { code: code, modifiers: 0, kind: KeyEventKind::Press }
}

/// Builds the default keymap.
pub fn default_keymap() -> (r: Vec<(KeyInput, ToriEvent)>)
    ensures
        r@ == default_keymap_spec(),
{
    let mut keymap: Vec<(KeyInput, ToriEvent)> = Vec::new();
    keymap.push((plain_press('q'), ToriEvent::Quit));
    keymap.push((special_press(KeyCode::Left), ToriEvent::Move(Direction::Left)));
    keymap.push((special_press(KeyCode::Right), ToriEvent::Move(Direction::Right)));
    keymap.push((special_press(KeyCode::Up), ToriEvent::Move(Direction::Up)));
    keymap.push((special_press(KeyCode::Down), ToriEvent::Move(Direction::Down)));
    proof {
        assert(keymap@ =~= default_keymap_spec());
    }
    keymap
}

/// Looks `k` up in the keymap; returns the action of the first matching
/// binding.
pub fn keymap_lookup(m: &Vec<(KeyInput, ToriEvent)>, k: KeyInput) -> (r: Option<ToriEvent>)
    ensures
        r == lookup_spec(m@, k),
{
    let mut i: usize = 0;
    proof {
        assert(m@.skip(0) =~= m@);
    }
    while i < m.len()
        invariant
            0 <= i <= m@.len(),
            lookup_spec(m@, k) == lookup_spec(m@.skip(i as int), k),
        decreases m@.len() - i,
    {
        proof {
            assert(m@.skip(i as int)[0] == m@[i as int]);
        }
        let (key, action) = m[i];
        if key == k {
            return Some(action);
        }
        proof {
            assert(m@.skip(i as int).drop_first() =~= m@.skip(i as int + 1));
        }
        i = i + 1;
    }
    proof {
        assert(m@.skip(m@.len() as int).len() == 0);
    }
    None
}

} // verus!
