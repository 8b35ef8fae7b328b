use vstd::prelude::*;

use crate::stack::{Frame, Label, StackModel};
use crate::value::{Native, Trap, Value};

verus! {

/// The state after pushing `ls` onto the label stack, first element first.
pub open spec fn push_labels(s: StackModel, ls: Seq<Label>) -> StackModel
    decreases ls.len(),
{
    if ls.len() == 0 {
        s
    } else {
        push_labels(s, ls.drop_last()).push_label(ls.last())
    }
}

/// `n` successive label pops: the state left and each pop's result in order.
pub open spec fn pop_labels(s: StackModel, n: nat) -> (StackModel, Seq<Result<Label, Trap>>)
    decreases n,
{
    if n == 0 {
        (s, Seq::empty())
    } else {
        let (s1, r) = s.pop_label();
        let (s2, rs) = pop_labels(s1, (n - 1) as nat);
        (s2, seq![r] + rs)
    }
}

/// The state after pushing `fs` onto the frame stack, first element first.
pub open spec fn push_frames(s: StackModel, fs: Seq<Frame>) -> StackModel
    decreases fs.len(),
{
    if fs.len() == 0 {
        s
    } else {
        push_frames(s, fs.drop_last()).push_frame(fs.last())
    }
}

/// `n` successive frame pops: the state left and each pop's result in order.
pub open spec fn pop_frames(s: StackModel, n: nat) -> (StackModel, Seq<Result<Frame, Trap>>)
    decreases n,
{
    if n == 0 {
        (s, Seq::empty())
    } else {
        let (s1, r) = s.pop_frame();
        let (s2, rs) = pop_frames(s1, (n - 1) as nat);
        (s2, seq![r] + rs)
    }
}

/// Popping a `T` right after pushing `v` gives back `v` and restores the
/// state from before the push, for every kind of value.
pub proof fn lemma_value_round_trip<T: Native>(s: StackModel, v: T)
    ensures
        s.push_value(v.to_value()).pop_value::<T>() == (s, Ok::<T, Trap>(v)),
{
    T::lemma_of_to(v);
    assert(s.push_value(v.to_value()).values.drop_last() =~= s.values);
}

/// Labels pushed in order pop off in reverse order, and the stack returns
/// to where it was.
pub proof fn lemma_labels_lifo(s: StackModel, ls: Seq<Label>)
    ensures
        pop_labels(push_labels(s, ls), ls.len()) == (
            s,
            Seq::new(ls.len(), |i: int| Ok::<Label, Trap>(ls[ls.len() - 1 - i])),
        ),
    decreases ls.len(),
{
    if ls.len() > 0 {
        let p = ls.drop_last();
        let t = push_labels(s, p);
        assert(t.push_label(ls.last()).labels.drop_last() =~= t.labels);
        lemma_labels_lifo(s, p);
        let (s2, rs) = pop_labels(t, p.len());
        assert(seq![Ok::<Label, Trap>(ls.last())] + rs =~= Seq::new(
            ls.len(),
            |i: int| Ok::<Label, Trap>(ls[ls.len() - 1 - i]),
        ));
    } else {
        assert(Seq::<Result<Label, Trap>>::empty() =~= Seq::new(
            0,
            |i: int| Ok::<Label, Trap>(ls[ls.len() - 1 - i]),
        ));
    }
}

/// Frames pushed in order pop off in reverse order, and the stack returns
/// to where it was.
pub proof fn lemma_frames_lifo(s: StackModel, fs: Seq<Frame>)
    ensures
        pop_frames(push_frames(s, fs), fs.len()) == (
            s,
            Seq::new(fs.len(), |i: int| Ok::<Frame, Trap>(fs[fs.len() - 1 - i])),
        ),
    decreases fs.len(),
{
    if fs.len() > 0 {
        let p = fs.drop_last();
        let t = push_frames(s, p);
        assert(t.push_frame(fs.last()).frames.drop_last() =~= t.frames);
        lemma_frames_lifo(s, p);
        let (s2, rs) = pop_frames(t, p.len());
        assert(seq![Ok::<Frame, Trap>(fs.last())] + rs =~= Seq::new(
            fs.len(),
            |i: int| Ok::<Frame, Trap>(fs[fs.len() - 1 - i]),
        ));
    } else {
        assert(Seq::<Result<Frame, Trap>>::empty() =~= Seq::new(
            0,
            |i: int| Ok::<Frame, Trap>(fs[fs.len() - 1 - i]),
        ));
    }
}

/// Peeking at depth 0 sees the label pushed last.
pub proof fn lemma_peek_top(s: StackModel, l: Label)
    ensures
        s.push_label(l).th_label(0) == Ok::<Label, Trap>(l),
{
}

/// On a fresh stack, the operands seeded by `set_params` are drained back
/// unchanged by `get_returns`, which leaves the stack empty.
pub proof fn lemma_params_returns(xs: Seq<Value>)
    ensures
        StackModel::empty().set_params(xs).get_returns() == (StackModel::empty(), xs),
{
}

/// Popping an empty sub-stack, or peeking at a depth at or past the label
/// count, faults with an underflow and leaves the state unchanged.
pub proof fn lemma_underflow<T: Native>(s: StackModel, th: int)
    ensures
        s.values.len() == 0 ==> s.pop_value::<T>() == (s, Err::<T, Trap>(Trap::StackUnderflow)),
        s.labels.len() == 0 ==> s.pop_label() == (s, Err::<Label, Trap>(Trap::StackUnderflow)),
        s.frames.len() == 0 ==> s.pop_frame() == (s, Err::<Frame, Trap>(Trap::StackUnderflow)),
        th >= s.labels.len() ==> s.th_label(th) == Err::<Label, Trap>(Trap::StackUnderflow),
{
}

} // verus!
