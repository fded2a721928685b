use vstd::prelude::*;
use crate::button::{Action, Button, button_symbols};

verus! {

/// The reason a code cannot be translated.
#[derive(Clone, Copy, Debug, PartialEq, Eq, Structural)]
pub enum Error {
    InvalidKey,
}

/// One of the two directional axes, which share one release code each.
#[derive(Clone, Copy, Debug, PartialEq, Eq, Structural)]
pub enum Axis {
    Vertical,
    Horizontal,
}

/// What a recognized event code means, before the directional memory is consulted.
#[derive(Clone, Copy, Debug, PartialEq, Eq, Structural)]
pub enum CodeMeaning {
    Fixed(Button, Action),
    DirectionalPush(Axis, Button),
    DirectionalRelease(Axis),
}

/// The table of recognized event codes.
pub open spec fn code_meaning(code: int) -> Option<CodeMeaning> {
    if code == 16777481 { Some(CodeMeaning::Fixed(Button::Start, Action::Push)) }
    else if code == 265 { Some(CodeMeaning::Fixed(Button::Start, Action::Release)) }
    else if code == 16777474 { Some(CodeMeaning::Fixed(Button::A, Action::Push)) }
    else if code == 258 { Some(CodeMeaning::Fixed(Button::A, Action::Release)) }
    else if code == 16777473 { Some(CodeMeaning::Fixed(Button::B, Action::Push)) }
    else if code == 257 { Some(CodeMeaning::Fixed(Button::B, Action::Release)) }
    else if code == 16777477 { Some(CodeMeaning::Fixed(Button::C, Action::Push)) }
    else if code == 261 { Some(CodeMeaning::Fixed(Button::C, Action::Release)) }
    else if code == 16777475 { Some(CodeMeaning::Fixed(Button::X, Action::Push)) }
    else if code == 259 { Some(CodeMeaning::Fixed(Button::X, Action::Release)) }
    else if code == 16777472 { Some(CodeMeaning::Fixed(Button::Y, Action::Push)) }
    else if code == 256 { Some(CodeMeaning::Fixed(Button::Y, Action::Release)) }
    else if code == 16777476 { Some(CodeMeaning::Fixed(Button::Z, Action::Push)) }
    else if code == 260 { Some(CodeMeaning::Fixed(Button::Z, Action::Release)) }
    else if code == 25166337 { Some(CodeMeaning::DirectionalPush(Axis::Vertical, Button::Up)) }
    else if code == 4286513665 { Some(CodeMeaning::DirectionalPush(Axis::Vertical, Button::Down)) }
    else if code == 25166336 { Some(CodeMeaning::DirectionalPush(Axis::Horizontal, Button::Left)) }
    else if code == 4286513664 { Some(CodeMeaning::DirectionalPush(Axis::Horizontal, Button::Right)) }
    else if code == 513 { Some(CodeMeaning::DirectionalRelease(Axis::Vertical)) }
    else if code == 512 { Some(CodeMeaning::DirectionalRelease(Axis::Horizontal)) }
    else { None }
}

/// The abstract state of a translator: the held symbols, in the order they
/// were recorded, and the last button pushed on each axis.
pub struct UniformModel {
    pub held: Seq<u8>,
    pub vertical: Button,
    pub horizontal: Button,
}

/// The button that owns an axis in the given state.
pub open spec fn axis_owner(m: UniformModel, axis: Axis) -> Button {
    match axis {
        Axis::Vertical => m.vertical,
        Axis::Horizontal => m.horizontal,
    }
}

/// Resolving a code: its meaning and the state that follows.
pub open spec fn resolve(m: UniformModel, code: int) -> (Result<(Button, Action), Error>, UniformModel) {
    match code_meaning(code) {
        None => (Err(Error::InvalidKey), m),
        Some(CodeMeaning::Fixed(b, a)) => (Ok((b, a)), m),
        Some(CodeMeaning::DirectionalPush(Axis::Vertical, b)) => (Ok((b, Action::Push)), UniformModel { vertical: b, ..m }),
        Some(CodeMeaning::DirectionalPush(Axis::Horizontal, b)) => (Ok((b, Action::Push)), UniformModel { horizontal: b, ..m }),
        Some(CodeMeaning::DirectionalRelease(axis)) => (Ok((axis_owner(m, axis), Action::Release)), m),
    }
}

/// Removes the first occurrence of `x`, if there is one.
pub open spec fn remove_one(s: Seq<u8>, x: u8) -> Seq<u8> {
    match s.index_of_first(x) {
        Some(i) => s.remove(i),
        None => s,
    }
}

/// One symbol's transition: the new held record, and whether a request is sent.
///
/// A push is recorded always and sent only if the symbol was not held; a
/// release removes one occurrence and is sent only if none is left.
pub open spec fn symbol_step(held: Seq<u8>, sym: u8, action: Action) -> (Seq<u8>, bool) {
    match action {
        Action::Push => (held.push(sym), !held.contains(sym)),
        Action::Release => (remove_one(held, sym), !remove_one(held, sym).contains(sym)),
    }
}

/// Applies an action to a sequence of symbols in order: the held record after
/// them all, and the requests sent.
pub open spec fn dispatch_symbols(held: Seq<u8>, syms: Seq<u8>, action: Action) -> (Seq<u8>, Seq<(u8, Action)>)
    decreases syms.len(),
{
    if syms.len() == 0 {
        (held, Seq::empty())
    } else {
        let prev = dispatch_symbols(held, syms.drop_last(), action);
        let step = symbol_step(prev.0, syms.last(), action);
        (step.0, if step.1 { prev.1.push((syms.last(), action)) } else { prev.1 })
    }
}

/// Translating a code end to end: the requests sent (or the error) and the next state.
pub open spec fn translate(m: UniformModel, code: int) -> (Result<Seq<(u8, Action)>, Error>, UniformModel) {
    let (res, m1) = resolve(m, code);
    match res {
        Err(e) => (Err(e), m1),
        Ok((b, a)) => {
            let d = dispatch_symbols(m1.held, button_symbols(b), a);
            (Ok(d.1), UniformModel { held: d.0, ..m1 })
        },
    }
}

/// The translator: decides, event by event, which key requests to send.
pub struct ButtonUniform {
    pushed_buttons: Vec<u8>,
    last_horizontal_arrow_button: Button,
    last_vertical_arrow_button: Button,
}

impl View for ButtonUniform {
    type V = UniformModel;

    closed spec fn view(&self) -> UniformModel {
        UniformModel {
            held: self.pushed_buttons@,
            vertical: self.last_vertical_arrow_button,
            horizontal: self.last_horizontal_arrow_button,
        }
    }
}

/// Each axis is owned by one of its own two buttons.
pub open spec fn model_wf(m: UniformModel) -> bool {
    &&& (m.vertical == Button::Up || m.vertical == Button::Down)
    &&& (m.horizontal == Button::Left || m.horizontal == Button::Right)
}

/// Classifies an event code by the table.
pub fn classify(code: i64) -> (r: Option<CodeMeaning>)
    ensures
        r == code_meaning(code as int),
{
    match code {
        16777481 => Some(CodeMeaning::Fixed(Button::Start, Action::Push)),
        265 => Some(CodeMeaning::Fixed(Button::Start, Action::Release)),
        16777474 => Some(CodeMeaning::Fixed(Button::A, Action::Push)),
        258 => Some(CodeMeaning::Fixed(Button::A, Action::Release)),
        16777473 => Some(CodeMeaning::Fixed(Button::B, Action::Push)),
        257 => Some(CodeMeaning::Fixed(Button::B, Action::Release)),
        16777477 => Some(CodeMeaning::Fixed(Button::C, Action::Push)),
        261 => Some(CodeMeaning::Fixed(Button::C, Action::Release)),
        16777475 => Some(CodeMeaning::Fixed(Button::X, Action::Push)),
        259 => Some(CodeMeaning::Fixed(Button::X, Action::Release)),
        16777472 => Some(CodeMeaning::Fixed(Button::Y, Action::Push)),
        256 => Some(CodeMeaning::Fixed(Button::Y, Action::Release)),
        16777476 => Some(CodeMeaning::Fixed(Button::Z, Action::Push)),
        260 => Some(CodeMeaning::Fixed(Button::Z, Action::Release)),
        25166337 => Some(CodeMeaning::DirectionalPush(Axis::Vertical, Button::Up)),
        4286513665 => Some(CodeMeaning::DirectionalPush(Axis::Vertical, Button::Down)),
        25166336 => Some(CodeMeaning::DirectionalPush(Axis::Horizontal, Button::Left)),
        4286513664 => Some(CodeMeaning::DirectionalPush(Axis::Horizontal, Button::Right)),
        513 => Some(CodeMeaning::DirectionalRelease(Axis::Vertical)),
        512 => Some(CodeMeaning::DirectionalRelease(Axis::Horizontal)),
        _ => None,
    }
}

/// Removes the first occurrence of `x` from `v`, if there is one.
fn remove_item(v: &mut Vec<u8>, x: u8)
    ensures
        final(v)@ == remove_one(old(v)@, x),
{
    proof {
        old(v)@.index_of_first_ensures(x);
    }
    let mut i: usize = 0;
    while i < v.len()
        invariant
            *v == *old(v),
            i <= v@.len(),
            forall|j: int| 0 <= j < i ==> v@[j] != x,
        decreases v@.len() - i,
    {
        if v[i] == x {
            let ghost s = v@;
            proof {
                s.index_of_first_ensures(x);
                assert(s[i as int] == x);
                assert(s.contains(x));
                let k = s.index_of_first(x).unwrap();
                if k < i as int {
                    assert(s[k] != x);
                }
                assert(k == i as int);
            }
            v.remove(i);
            return;
        }
        i = i + 1;
    }
    proof {
        v@.index_of_first_ensures(x);
    }
}

/// Whether `v` holds `x`.
fn holds(v: &Vec<u8>, x: u8) -> (r: bool)
    ensures
        r == v@.contains(x),
{
    let mut i: usize = 0;
    while i < v.len()
        invariant
            i <= v@.len(),
            forall|j: int| 0 <= j < i ==> v@[j] != x,
        decreases v@.len() - i,
    {
        if v[i] == x {
            return true;
        }
        i = i + 1;
    }
    false
}

impl ButtonUniform {
    /// The well-formedness of the translator's state.
    pub open spec fn wf(&self) -> bool {
        model_wf(self@)
    }

    /// A translator with nothing held; the axis owners start as `Down` and `Left`.
    pub fn new() -> (r: Self)
        ensures
            r.wf(),
            r@.held == Seq::<u8>::empty(),
            r@.vertical == Button::Down,
            r@.horizontal == Button::Left,
    {
        Self {
            last_vertical_arrow_button: Button::Down,
            last_horizontal_arrow_button: Button::Left,
            pushed_buttons: Vec::new(),
        }
    }

    /// The symbols currently held, in the order they were recorded.
    pub fn held_symbols(&self) -> (r: Vec<u8>)
        ensures
            r@ == self@.held,
    {
        self.pushed_buttons.clone()
    }

    /// The button most recently pushed on the vertical axis.
    pub fn last_vertical(&self) -> (r: Button)
        ensures
            r == self@.vertical,
    {
        self.last_vertical_arrow_button
    }

    /// The button most recently pushed on the horizontal axis.
    pub fn last_horizontal(&self) -> (r: Button)
        ensures
            r == self@.horizontal,
    {
        self.last_horizontal_arrow_button
    }

    /// Resolves an event code into a button and an action.
    ///
    /// A directional push makes its button the owner of its axis; a generic
    /// directional release names the axis's owner; an unknown code is an
    /// `InvalidKey` error and changes nothing.
    pub fn convert_to_uniform(&mut self, code: i64) -> (r: Result<(Button, Action), Error>)
        requires
            old(self).wf(),
        ensures
            final(self).wf(),
            (r, final(self)@) == resolve(old(self)@, code as int),
    {
        match classify(code) {
            None => Err(Error::InvalidKey),
            Some(CodeMeaning::Fixed(b, a)) => Ok((b, a)),
            Some(CodeMeaning::DirectionalPush(Axis::Vertical, b)) => {
                self.last_vertical_arrow_button = b;
                Ok((self.last_vertical_arrow_button, Action::Push))
            },
            Some(CodeMeaning::DirectionalPush(Axis::Horizontal, b)) => {
                self.last_horizontal_arrow_button = b;
                Ok((self.last_horizontal_arrow_button, Action::Push))
            },
            Some(CodeMeaning::DirectionalRelease(Axis::Vertical)) => {
                Ok((self.last_vertical_arrow_button, Action::Release))
            },
            Some(CodeMeaning::DirectionalRelease(Axis::Horizontal)) => {
                Ok((self.last_horizontal_arrow_button, Action::Release))
            },
        }
    }

    /// Applies `action` to each symbol of `button` in order, updating the held
    /// record, and returns the `(symbol, action)` requests to send.
    pub fn dispatch(&mut self, button: Button, action: Action) -> (r: Vec<(u8, Action)>)
        requires
            old(self).wf(),
        ensures
            final(self).wf(),
            final(self)@.vertical == old(self)@.vertical,
            final(self)@.horizontal == old(self)@.horizontal,
            (final(self)@.held, r@) == dispatch_symbols(old(self)@.held, button_symbols(button), action),
    {
        let syms = button.symbols();
        let mut out: Vec<(u8, Action)> = Vec::new();
        let mut i: usize = 0;
        while i < syms.len()
            invariant
                i <= syms@.len(),
                syms@ == button_symbols(button),
                self.last_vertical_arrow_button == old(self).last_vertical_arrow_button,
                self.last_horizontal_arrow_button == old(self).last_horizontal_arrow_button,
                (self.pushed_buttons@, out@) == dispatch_symbols(old(self).pushed_buttons@, syms@.subrange(0, i as int), action),
            decreases syms@.len() - i,
        {
            let symbol = syms[i];
            proof {
                let pre = syms@.subrange(0, i as int + 1);
                assert(pre.drop_last() =~= syms@.subrange(0, i as int));
                assert(pre.last() == symbol);
            }
            match action {
                Action::Push => {
                    let was_held = holds(&self.pushed_buttons, symbol);
                    self.pushed_buttons.push(symbol);
                    if !was_held {
                        out.push((symbol, action));
                    }
                },
                Action::Release => {
                    remove_item(&mut self.pushed_buttons, symbol);
                    if !holds(&self.pushed_buttons, symbol) {
                        out.push((symbol, action));
                    }
                },
            }
            i = i + 1;
        }
        proof {
            assert(syms@.subrange(0, i as int) =~= syms@);
        }
        out
    }

    /// Translates one event code: resolves it, then dispatches the button's
    /// symbols. An unknown code is an `InvalidKey` error and changes nothing.
    pub fn xdo(&mut self, code: i64) -> (r: Result<Vec<(u8, Action)>, Error>)
        requires
            old(self).wf(),
        ensures
            final(self).wf(),
            final(self)@ == translate(old(self)@, code as int).1,
            match r {
                Ok(v) => translate(old(self)@, code as int).0 == Ok::<Seq<(u8, Action)>, Error>(v@),
                Err(e) => translate(old(self)@, code as int).0 == Err::<Seq<(u8, Action)>, Error>(e),
            },
    {
        match self.convert_to_uniform(code) {
            Err(e) => Err(e),
            Ok((button, action)) => Ok(self.dispatch(button, action)),
        }
    }
}

} // verus!
