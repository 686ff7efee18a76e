//! Laws of the selectable list, stated over the model its methods' contracts use.

use vstd::prelude::*;

use crate::event::Event;
use crate::ui::multi_select::{
    clamp_index, count_of, decimal, digit_of, focus_down_from, focus_up_from, ListState, Outcome,
};

verus! {

/// A focus move, as `select_up`, `select_down` and `set_selection` make it.
pub enum SelectOp {
    Up(usize),
    Down(usize),
    Jump(usize),
}

/// The state that one move leaves, as the move's contract states it.
pub open spec fn apply_op<T>(s: ListState<T>, op: SelectOp) -> ListState<T> {
    match op {
        SelectOp::Up(n) => s.with_focus(focus_up_from(s.focus, n as nat)),
        SelectOp::Down(n) => s.with_focus(focus_down_from(s.focus, n as nat, s.len())),
        SelectOp::Jump(i) => s.with_focus(clamp_index(i as int, s.len())),
    }
}

/// The state after a sequence of moves, first to last.
pub open spec fn apply_ops<T>(s: ListState<T>, ops: Seq<SelectOp>) -> ListState<T>
    decreases ops.len(),
{
    if ops.len() == 0 {
        s
    } else {
        apply_op(apply_ops(s, ops.drop_last()), ops.last())
    }
}

/// After any sequence of moves, the focus of a non-empty list is still one of
/// its rows, and the rows are unchanged.
pub proof fn lemma_moves_keep_focus_in_list<T>(s: ListState<T>, ops: Seq<SelectOp>)
    requires
        s.wf(),
        s.len() > 0,
    ensures
        apply_ops(s, ops).items == s.items,
        apply_ops(s, ops).focus < s.len(),
        apply_ops(s, ops).wf(),
    decreases ops.len(),
{
    if ops.len() > 0 {
        lemma_moves_keep_focus_in_list(s, ops.drop_last());
    }
}

/// Typing `g` twice, with no key pending, focuses the first row and empties
/// both pending buffers, wherever the focus was.
pub proof fn lemma_gg_goes_to_first<T>(s: ListState<T>)
    requires
        s.wf(),
        !s.popup,
        s.keys.len() == 0,
    ensures
        ({
            let (s2, out) = s.step(Event::Char('g')).0.step(Event::Char('g'));
            &&& s2.focus == 0
            &&& s2.keys.len() == 0
            &&& s2.digits.len() == 0
            &&& out == Outcome::Select
            &&& s2.items == s.items
        }),
{
    let s1 = s.step(Event::Char('g')).0;
    assert(s.keys.push('g') =~= seq!['g']);
    assert(s.keys.push('g') != seq!['g', 'g']);
    assert(s.keys.push('g') != seq!['G']) by {
        if s.keys.push('g') == seq!['G'] {
            assert(s.keys.push('g')[0] == 'g');
            assert(seq!['G'][0] == 'G');
        }
    }
    assert(s1.keys == seq!['g']);
    assert(s1.keys.push('g') =~= seq!['g', 'g']);
}

/// A `g` that completes a pending `g` focuses the first row and empties both
/// pending buffers, whatever count was pending.
pub proof fn lemma_second_g_goes_to_first<T>(s: ListState<T>)
    requires
        s.wf(),
        !s.popup,
        s.keys == seq!['g'],
    ensures
        ({
            let (s2, out) = s.step(Event::Char('g'));
            &&& s2.focus == 0
            &&& s2.keys.len() == 0
            &&& s2.digits.len() == 0
            &&& out == Outcome::Select
            &&& s2.items == s.items
        }),
{
    assert(s.keys.push('g') =~= seq!['g', 'g']);
}

/// With no count pending, `G` focuses the last row.
pub proof fn lemma_bare_big_g_goes_to_last<T>(s: ListState<T>)
    requires
        s.wf(),
        !s.popup,
        s.digits.len() == 0,
        s.len() > 0,
    ensures
        s.step(Event::Char('G')).0.focus == s.len() - 1,
        s.step(Event::Char('G')).1 == Outcome::Select,
{
    let keys = s.keys.push('G');
    assert(decimal(s.digits) == 0);
    if s.keys.len() == 0 {
        assert(keys =~= seq!['G']);
    } else {
        assert(keys.len() == 2 && keys[1] == 'G');
        assert(keys != seq!['g', 'g']) by {
            if keys == seq!['g', 'g'] {
                assert(keys[1] == 'g');
            }
        }
        assert(keys != seq!['G']);
        assert(keys != seq!['g']);
    }
}

/// A one-digit count `d` from 1 to 9 followed by `G` focuses row `d`
/// (counting from 1), or the last row when the list is shorter.
pub proof fn lemma_count_then_big_g<T>(s: ListState<T>, c: char)
    requires
        s.wf(),
        !s.popup,
        s.keys.len() == 0,
        s.digits.len() == 0,
        s.len() > 0,
        0x31 <= (c as u32) <= 0x39,
    ensures
        ({
            let (s2, out) = s.step(Event::Char(c)).0.step(Event::Char('G'));
            &&& s2.focus == if digit_of(c) <= s.len() {
                digit_of(c) - 1
            } else {
                s.len() - 1
            }
            &&& out == Outcome::Select
            &&& s2.keys.len() == 0
            &&& s2.digits.len() == 0
        }),
{
    let s1 = s.step(Event::Char(c)).0;
    assert(s1.digits =~= seq![digit_of(c)]);
    assert(s1.digits.drop_last() =~= Seq::<usize>::empty());
    assert(s1.digits.len() == 1 && s1.digits.last() == digit_of(c));
    assert(decimal(s1.digits.drop_last()) == 0);
    assert(decimal(s1.digits) == digit_of(c));
    assert(count_of(s1.digits) == digit_of(c));
    assert(s1.keys.push('G') =~= seq!['G']);
    assert(s1.keys.push('G') != seq!['g', 'g']) by {
        if s1.keys.push('G') == seq!['g', 'g'] {
            assert(s1.keys.push('G').len() == 1);
        }
    }
}

} // verus!
