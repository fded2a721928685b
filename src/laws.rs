use vstd::prelude::*;
use crate::button::{Action, Button, button_symbols};
use crate::uniform::{
    Axis, CodeMeaning, Error, UniformModel, axis_owner, code_meaning, dispatch_symbols,
    remove_one, resolve, symbol_step, translate,
};

verus! {

broadcast use vstd::seq_lib::group_to_multiset_ensures;

/// The state after resolving each code of `codes` in order.
pub open spec fn resolve_all(m: UniformModel, codes: Seq<int>) -> UniformModel
    decreases codes.len(),
{
    if codes.len() == 0 {
        m
    } else {
        resolve(resolve_all(m, codes.drop_last()), codes.last()).1
    }
}

/// Whether `code` pushes a button of `axis`.
pub open spec fn pushes_on(code: int, axis: Axis) -> bool {
    match code_meaning(code) {
        Some(CodeMeaning::DirectionalPush(a, _)) => a == axis,
        _ => false,
    }
}

/// A non-directional code resolves to its table entry whatever the state,
/// leaves the state as it is, and is the only code with that entry.
pub proof fn lemma_fixed_code_resolves(m1: UniformModel, m2: UniformModel, code: int, other: int)
    requires
        code_meaning(code) matches Some(CodeMeaning::Fixed(_, _)),
    ensures
        resolve(m1, code).1 == m1,
        resolve(m1, code).0 == resolve(m2, code).0,
        match code_meaning(code) {
            Some(CodeMeaning::Fixed(b, a)) => resolve(m1, code).0 == Ok::<(Button, Action), Error>((b, a)),
            _ => true,
        },
        code_meaning(other) == code_meaning(code) ==> other == code,
{
}

/// Codes that push nothing on `axis` leave the owner of `axis` as it is.
pub proof fn lemma_axis_owner_kept(m: UniformModel, codes: Seq<int>, axis: Axis)
    requires
        forall|i: int| 0 <= i < codes.len() ==> !pushes_on(#[trigger] codes[i], axis),
    ensures
        axis_owner(resolve_all(m, codes), axis) == axis_owner(m, axis),
    decreases codes.len(),
{
    if codes.len() > 0 {
        let rest = codes.drop_last();
        assert forall|i: int| 0 <= i < rest.len() implies !pushes_on(#[trigger] rest[i], axis) by {
            assert(rest[i] == codes[i]);
        }
        lemma_axis_owner_kept(m, rest, axis);
        assert(!pushes_on(codes[codes.len() - 1], axis));
    }
}

/// A generic release of an axis names the button most recently pushed on
/// that axis, whatever codes came between that push nothing on the axis.
pub proof fn lemma_release_targets_last_push(
    m: UniformModel,
    push: int,
    between: Seq<int>,
    release: int,
    axis: Axis,
    b: Button,
)
    requires
        code_meaning(push) == Some(CodeMeaning::DirectionalPush(axis, b)),
        code_meaning(release) == Some(CodeMeaning::DirectionalRelease(axis)),
        forall|i: int| 0 <= i < between.len() ==> !pushes_on(#[trigger] between[i], axis),
    ensures
        resolve(m, push).0 == Ok::<(Button, Action), Error>((b, Action::Push)),
        resolve(resolve_all(resolve(m, push).1, between), release).0
            == Ok::<(Button, Action), Error>((b, Action::Release)),
{
    lemma_axis_owner_kept(resolve(m, push).1, between, axis);
}

/// An unknown code is an `InvalidKey` error and changes neither the
/// directional memory nor the held symbols.
pub proof fn lemma_unknown_code(m: UniformModel, code: int)
    requires
        code_meaning(code) == None::<CodeMeaning>,
    ensures
        resolve(m, code) == (Err::<(Button, Action), Error>(Error::InvalidKey), m),
        translate(m, code) == (Err::<Seq<(u8, Action)>, Error>(Error::InvalidKey), m),
{
}

/// A push is always recorded, adding one occurrence of its symbol, and is
/// sent exactly when the symbol had no occurrence before.
pub proof fn lemma_push_step(held: Seq<u8>, sym: u8)
    ensures
        symbol_step(held, sym, Action::Push).0.to_multiset() == held.to_multiset().insert(sym),
        symbol_step(held, sym, Action::Push).1 == (held.to_multiset().count(sym) == 0),
{
}

/// A release removes exactly one occurrence of its symbol, if it has one,
/// and is sent exactly when no occurrence is left.
pub proof fn lemma_release_step(held: Seq<u8>, sym: u8)
    ensures
        symbol_step(held, sym, Action::Release).0.to_multiset() == held.to_multiset().remove(sym),
        symbol_step(held, sym, Action::Release).1 == (held.to_multiset().count(sym) <= 1),
{
    held.index_of_first_ensures(sym);
    let h = remove_one(held, sym);
    assert(h.to_multiset() =~= held.to_multiset().remove(sym));
    assert(h.contains(sym) <==> h.to_multiset().count(sym) > 0);
}

/// Pushing a button again while all its symbols are held sends nothing and
/// adds one more occurrence of each symbol.
pub proof fn lemma_repeated_push_silent(m: UniformModel, code: int, b: Button)
    requires
        code_meaning(code) == Some(CodeMeaning::Fixed(b, Action::Push)),
        forall|i: int| 0 <= i < button_symbols(b).len() ==> m.held.contains(#[trigger] button_symbols(b)[i]),
    ensures
        translate(m, code).0 == Ok::<Seq<(u8, Action)>, Error>(Seq::empty()),
        translate(m, code).1.held == m.held + button_symbols(b),
{
    let syms = button_symbols(b);
    reveal_with_fuel(dispatch_symbols, 3);
    if syms.len() == 1 {
        assert(syms.drop_last() =~= Seq::<u8>::empty());
        assert(m.held.contains(syms[0]));
        assert(m.held + syms =~= m.held.push(syms[0]));
    } else {
        assert(syms.len() == 2);
        assert(syms.drop_last().drop_last() =~= Seq::<u8>::empty());
        assert(syms.drop_last() =~= seq![syms[0]]);
        assert(m.held.contains(syms[0]));
        assert(m.held.contains(syms[1]));
        let h1 = m.held.push(syms[0]);
        assert(h1[m.held.len() as int - 0] == syms[0]);
        assert(h1.contains(syms[1])) by {
            let k = choose|k: int| 0 <= k < m.held.len() && m.held[k] == syms[1];
            assert(h1[k] == syms[1]);
        }
        assert(m.held + syms =~= h1.push(syms[1]));
    }
}

/// Pushing `C` and then releasing it, from a state where neither of its
/// symbols is held, sends a push of each symbol in order, then a release of
/// each in order, and leaves the state as it was.
pub proof fn lemma_combo_push_release(m: UniformModel)
    requires
        !m.held.contains(97u8),
        !m.held.contains(119u8),
    ensures
        translate(m, 16777477).0 == Ok::<Seq<(u8, Action)>, Error>(
            seq![(97u8, Action::Push), (119u8, Action::Push)],
        ),
        translate(translate(m, 16777477).1, 261).0 == Ok::<Seq<(u8, Action)>, Error>(
            seq![(97u8, Action::Release), (119u8, Action::Release)],
        ),
        translate(translate(m, 16777477).1, 261).1 == m,
{
    let syms = button_symbols(Button::C);
    reveal_with_fuel(dispatch_symbols, 3);
    assert(syms.drop_last().drop_last() =~= Seq::<u8>::empty());
    assert(syms.drop_last() =~= seq![97u8]);
    let h = m.held;
    let h1 = h.push(97u8);
    let h2 = h1.push(119u8);
    assert(!h1.contains(119u8)) by {
        if h1.contains(119u8) {
            let k = choose|k: int| 0 <= k < h1.len() && h1[k] == 119u8;
            assert(h[k] == 119u8);
        }
    }
    assert(h1[h.len() as int] == 97u8);
    // Releasing: the first `a` is the one pushed last but one.
    h2.index_of_first_ensures(97u8);
    assert(h2[h.len() as int] == 97u8);
    let k = h2.index_of_first(97u8).unwrap();
    if k < h.len() {
        assert(h[k] == 97u8);
    }
    assert(k == h.len());
    let r1 = h2.remove(k);
    assert(r1 =~= h.push(119u8));
    assert(!r1.contains(97u8)) by {
        if r1.contains(97u8) {
            let j = choose|j: int| 0 <= j < r1.len() && r1[j] == 97u8;
            assert(j < h.len());
            assert(h[j] == 97u8);
        }
    }
    r1.index_of_first_ensures(119u8);
    assert(r1[h.len() as int] == 119u8);
    let k2 = r1.index_of_first(119u8).unwrap();
    if k2 < h.len() {
        assert(h[k2] == 119u8);
    }
    assert(k2 == h.len());
    assert(r1.remove(k2) =~= h);
    assert(remove_one(h2, 97u8) == r1);
    assert(remove_one(r1, 119u8) == h);
    let pushes = dispatch_symbols(h, syms, Action::Push).1;
    assert(pushes =~= seq![(97u8, Action::Push), (119u8, Action::Push)]);
    let releases = dispatch_symbols(h2, syms, Action::Release).1;
    assert(releases =~= seq![(97u8, Action::Release), (119u8, Action::Release)]);
}

} // verus!
