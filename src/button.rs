use vstd::prelude::*;

verus! {

broadcast use vstd::string::group_string_axioms;

/// A logical button of the joystick.
#[derive(Clone, Copy, Debug, PartialEq, Eq, Structural)]
pub enum Button {
    Start,
    Up,
    Down,
    Left,
    Right,
    A,
    B,
    C,
    X,
    Y,
    Z,
}

/// What happened to a button.
#[derive(Clone, Copy, Debug, PartialEq, Eq, Structural)]
pub enum Action {
    Push,
    Release,
}

/// The keyword of an action in the injection tool's vocabulary.
pub open spec fn action_keyword(a: Action) -> Seq<char> {
    match a {
        Action::Push => "keydown"@,
        Action::Release => "keyup"@,
    }
}

impl Action {
    /// The keyword of this action in the injection tool's vocabulary.
    pub fn to_string(&self) -> (r: String)
        ensures
            r@ == action_keyword(*self),
    {
        proof {
            reveal_strlit("keydown");
            reveal_strlit("keyup");
        }
        match self {
            Action::Push => "keydown".to_string(),
            Action::Release => "keyup".to_string(),
        }
    }
}

/// The key symbols a button stands for, in the order they are dispatched, as
/// ASCII codes: `s`, `u`, `d`, `q`, `r`, `a`, `w`, `aw`, `x`, `y`, `xy`.
pub open spec fn button_symbols(b: Button) -> Seq<u8> {
    match b {
        Button::Start => seq![115u8],
        Button::Up => seq![117u8],
        Button::Down => seq![100u8],
        Button::Left => seq![113u8],
        Button::Right => seq![114u8],
        Button::A => seq![97u8],
        Button::B => seq![119u8],
        Button::C => seq![97u8, 119u8],
        Button::X => seq![120u8],
        Button::Y => seq![121u8],
        Button::Z => seq![120u8, 121u8],
    }
}

impl Button {
    /// The key symbols of this button: one for most buttons, two for the
    /// combination buttons `C` (the symbols of `A` and `B`) and `Z` (those of
    /// `X` and `Y`).
    pub fn symbols(&self) -> (r: Vec<u8>)
        ensures
            r@ == button_symbols(*self),
            r@.len() >= 1,
    {
        match self {
            Button::Start => vec![115u8],
            Button::Up => vec![117u8],
            Button::Down => vec![100u8],
            Button::Left => vec![113u8],
            Button::Right => vec![114u8],
            Button::A => vec![97u8],
            Button::B => vec![119u8],
            Button::C => vec![97u8, 119u8],
            Button::X => vec![120u8],
            Button::Y => vec![121u8],
            Button::Z => vec![120u8, 121u8],
        }
    }
}

} // verus!
