//! Properties of sequences of operations on a `Vector`, stated over the
//! view and capacity that the operations' contracts speak of.
use vstd::arithmetic::power2::{lemma_pow2_unfold, pow2};
use vstd::prelude::*;

use crate::buffer::grown_capacity;
use crate::vector::capacity_after_push;

verus! {

/// The elements after pushing each of `vs`, in order, onto an array holding
/// `start` (each `push` turns a view `s` into `s.push(v)`).
pub open spec fn pushed_all<T>(start: Seq<T>, vs: Seq<T>) -> Seq<T>
    decreases vs.len(),
{
    if vs.len() == 0 {
        start
    } else {
        pushed_all(start, vs.drop_last()).push(vs.last())
    }
}

/// The values handed back by popping an array holding `s` until it is empty
/// (each `pop` hands back the last element and drops it).
pub open spec fn popped_all<T>(s: Seq<T>) -> Seq<T>
    decreases s.len(),
{
    if s.len() == 0 {
        Seq::empty()
    } else {
        seq![s.last()] + popped_all(s.drop_last())
    }
}

/// How many of `n` pushes, onto an array of capacity `cap` holding `len`
/// elements, grow the buffer; each push moves the capacity as `push` does.
pub open spec fn growths_from(cap: nat, len: nat, n: nat) -> nat
    decreases n,
{
    if n == 0 {
        0
    } else {
        (if len == cap {
            1nat
        } else {
            0nat
        }) + growths_from(capacity_after_push(cap, len), len + 1, (n - 1) as nat)
    }
}

/// Pushing `v1 .. vn` onto an empty array leaves exactly `v1 .. vn`, in that
/// order, which is what a shared walk then yields; the length is `n`.
pub proof fn lemma_pushes_then_walk<T>(vs: Seq<T>)
    ensures
        pushed_all(Seq::empty(), vs) == vs,
        pushed_all(Seq::empty(), vs).len() == vs.len(),
    decreases vs.len(),
{
    if vs.len() > 0 {
        lemma_pushes_then_walk(vs.drop_last());
        assert(vs.drop_last().push(vs.last()) =~= vs);
    }
}

/// Popping an array until it is empty hands back its elements last first.
pub proof fn lemma_pops_reverse<T>(s: Seq<T>)
    ensures
        popped_all(s) == s.reverse(),
    decreases s.len(),
{
    if s.len() > 0 {
        lemma_pops_reverse(s.drop_last());
        assert(popped_all(s) =~= s.reverse());
    }
}

/// Pushing `v1 .. vn` onto an empty array and then popping it empty hands
/// back `vn .. v1`.
pub proof fn lemma_pushes_then_pops<T>(vs: Seq<T>)
    ensures
        popped_all(pushed_all(Seq::empty(), vs)) == vs.reverse(),
{
    lemma_pushes_then_walk(vs);
    lemma_pops_reverse(vs);
}

/// A `pop` right after a `push` of `x` hands back `x` and restores the
/// elements that were there before.
pub proof fn lemma_push_then_pop<T>(s: Seq<T>, x: T)
    ensures
        s.push(x).len() > 0,
        s.push(x).last() == x,
        s.push(x).drop_last() == s,
{
    assert(s.push(x).drop_last() =~= s);
}

/// A push keeps every earlier element at its index, whether or not it grew
/// the buffer, and puts the new one right after them.
pub proof fn lemma_push_keeps_elements<T>(s: Seq<T>, v: T)
    ensures
        s.push(v).len() == s.len() + 1,
        forall|i: int| 0 <= i < s.len() ==> #[trigger] s.push(v)[i] == s[i],
        s.push(v)[s.len() as int] == v,
{
}

/// Growth is geometric: a full block gains at least one slot and at least
/// doubles.
pub proof fn lemma_growth_is_geometric(cap: nat)
    ensures
        grown_capacity(cap) >= cap + 1,
        grown_capacity(cap) >= 2 * cap,
{
}

proof fn lemma_growths_doubling(k: nat, cap: nat, len: nat, n: nat)
    requires
        cap == pow2(k),
        1 <= len <= cap <= 2 * len,
    ensures
        pow2(k + 1 + growths_from(cap, len, n)) <= 4 * (len + n),
    decreases n,
{
    lemma_pow2_unfold(k + 1);
    if n > 0 {
        if len == cap {
            lemma_growths_doubling(k + 1, 2 * cap, len + 1, (n - 1) as nat);
            assert(k + 1 + growths_from(cap, len, n) == (k + 1) + 1 + growths_from(
                2 * cap,
                len + 1,
                (n - 1) as nat,
            ));
        } else {
            lemma_growths_doubling(k, cap, len + 1, (n - 1) as nat);
        }
    }
}

/// Of `n >= 1` pushes onto an empty array, at most `log2(n) + 2` grow the
/// buffer: two to the number of growths is at most `4 * n`.
pub proof fn lemma_growths_logarithmic(n: nat)
    requires
        n >= 1,
    ensures
        pow2(growths_from(0, 0, n)) <= 4 * n,
{
    lemma_pow2_unfold(1);
    assert(pow2(0) == 1) by {
        vstd::arithmetic::power2::lemma_pow2(0);
        vstd::arithmetic::power::lemma_pow0(2);
    }
    lemma_growths_doubling(0, 1, 1, (n - 1) as nat);
}

} // verus!
