//! Round-robin selection over a fixed, non-empty pool of backend addresses.
//!
//! The pool is fixed at construction and never changes afterwards; the only
//! mutable state is the rotation cursor, which advances by one on every
//! selection and wraps at the top of the `usize` range. The selected slot is
//! always the pre-increment cursor value reduced modulo the pool size, so a
//! run of selections walks the pool in order, one backend per call, with no
//! backend skipped or favoured.

use vstd::prelude::*;

verus! {

/// The character sequences of a sequence of owned strings, in order.
pub open spec fn views_of(bs: Seq<String>) -> Seq<Seq<char>> {
    bs.map_values(|b: String| b@)
}

/// One step of the rotation cursor: it advances by one and wraps to zero at
/// the top of the `usize` range instead of overflowing.
pub open spec fn wrap_add_one(c: nat) -> nat {
    if c == usize::MAX as nat {
        0
    } else {
        c + 1
    }
}

/// The backend slot that a cursor value selects over a pool of `k` backends.
pub open spec fn slot_of(c: nat, k: nat) -> nat
    recommends
        k > 0,
{
    c % k
}

/// The cursor value observed by selection number `i` (counted from zero)
/// when the cursor started at `c0`, with wrap-around at the top of the
/// `usize` range.
pub open spec fn cursor_after(c0: nat, i: nat) -> nat {
    (c0 + i) % (usize::MAX as nat + 1)
}

/// Owns the ordered pool of backend base addresses and the shared rotation
/// cursor.
pub struct BackendSelector {
    backends: Vec<String>,
    cursor: usize,
}

impl BackendSelector {
    /// The ordered backend addresses.
    pub closed spec fn backends(&self) -> Seq<Seq<char>> {
        views_of(self.backends@)
    }

    /// The current value of the rotation cursor.
    pub closed spec fn cursor(&self) -> nat {
        self.cursor as nat
    }

    /// A selector is well formed exactly when its pool is non-empty.
    pub open spec fn well_formed(&self) -> bool {
        self.backends().len() > 0
    }

    /// Builds a selector over the given pool with the cursor at zero.
    /// An empty pool is a configuration fault and is rejected here, so that
    /// selection itself never fails.
    pub fn new(backends: Vec<String>) -> (r: Option<BackendSelector>)
        ensures
            r is Some <==> backends@.len() > 0,
            r matches Some(s) ==> s.well_formed() && s.backends() == views_of(backends@)
                && s.cursor() == 0,
    {
        if backends.len() == 0 {
            None
        } else {
            Some(BackendSelector { backends, cursor: 0 })
        }
    }

    /// How many backends the pool holds.
    pub fn backend_count(&self) -> (r: usize)
        ensures
            r == self.backends().len(),
    {
        self.backends.len()
    }

    /// Picks the next backend: the slot is the pre-increment cursor value
    /// reduced modulo the pool size, the result is that slot's address, and
    /// the cursor advances by one, wrapping on overflow. The pool itself
    /// never changes.
    pub fn next(&mut self) -> (r: String)
        requires
            old(self).well_formed(),
        ensures
            final(self).backends() == old(self).backends(),
            final(self).cursor() == wrap_add_one(old(self).cursor()),
            r@ == old(self).backends()[slot_of(old(self).cursor(), old(self).backends().len()) as int],
    {
        let index = self.cursor % self.backends.len();
        let picked = self.backends[index].clone();
        self.cursor = self.cursor.wrapping_add(1);
        picked
    }
}

/// Stepping the cursor value observed by selection `i` gives the value
/// observed by selection `i + 1`: a run of calls to `next` walks exactly the
/// values `cursor_after(c0, 0), cursor_after(c0, 1), ...`.
pub proof fn lemma_cursor_step(c0: nat, i: nat)
    ensures
        wrap_add_one(cursor_after(c0, i)) == cursor_after(c0, i + 1),
{
    let m = usize::MAX as nat + 1;
    let r = cursor_after(c0, i);
    vstd::arithmetic::div_mod::lemma_mod_bound((c0 + i) as int, m as int);
    vstd::arithmetic::div_mod::lemma_add_mod_noop((c0 + i) as int, 1, m as int);
    vstd::arithmetic::div_mod::lemma_small_mod(1, m);
    if r == usize::MAX as nat {
        vstd::arithmetic::div_mod::lemma_mod_self_0(m as int);
    } else {
        vstd::arithmetic::div_mod::lemma_small_mod(r + 1, m);
    }
}

/// Fair rotation from a fresh selector: selection number `i` (counted from
/// zero, cursor started at zero) lands on slot `i % k`, so the selected
/// slots cycle through `0, 1, ..., k - 1` in order, over and over.
pub proof fn lemma_fair_rotation(i: nat, k: nat)
    requires
        0 < k,
        i <= usize::MAX as nat,
    ensures
        slot_of(cursor_after(0, i), k) == i % k,
{
    vstd::arithmetic::div_mod::lemma_small_mod(i, usize::MAX as nat + 1);
}

/// The slots selected by the first `n` selections from a fresh selector
/// (cursor started at zero), in order.
pub open spec fn rotation_slots(n: nat, k: nat) -> Seq<nat> {
    Seq::new(n, |i: int| slot_of(cursor_after(0, i as nat), k))
}

/// Over a pool of `k` slots, the identity block `0, 1, ..., k - 1` holds
/// each value below `k` exactly once.
proof fn lemma_identity_block_count(k: nat, j: nat)
    ensures
        Seq::new(k, |i: int| i as nat).to_multiset().count(j) == if j < k {
            1nat
        } else {
            0nat
        },
    decreases k,
{
    broadcast use vstd::seq_lib::group_to_multiset_ensures;
    broadcast use vstd::multiset::group_multiset_axioms;

    let cur = Seq::new(k, |i: int| i as nat);
    if k == 0 {
        assert(!cur.contains(j));
    } else {
        lemma_identity_block_count((k - 1) as nat, j);
        let prev = Seq::new((k - 1) as nat, |i: int| i as nat);
        assert(cur =~= prev.push((k - 1) as nat));
    }
}

/// One full round of `k` selections, the `b`-th such round from a fresh
/// selector, walks the slots `0, 1, ..., k - 1` in order.
proof fn lemma_rotation_round(b: nat, k: nat)
    requires
        0 < k,
        (b + 1) * k <= usize::MAX as nat + 1,
    ensures
        Seq::new(k, |i: int| slot_of(cursor_after(0, (b * k + i) as nat), k)) =~= Seq::new(
            k,
            |i: int| i as nat,
        ),
{
    vstd::arithmetic::mul::lemma_mul_is_distributive_add_other_way(k as int, b as int, 1);
    assert forall|i: int| 0 <= i < k implies #[trigger] slot_of(
        cursor_after(0, (b * k + i) as nat),
        k,
    ) == i as nat by {
        vstd::arithmetic::div_mod::lemma_small_mod((b * k + i) as nat, usize::MAX as nat + 1);
        vstd::arithmetic::div_mod::lemma_mod_multiples_vanish(b as int, i, k as int);
        vstd::arithmetic::div_mod::lemma_small_mod(i as nat, k);
    }
}

/// Fair rotation, counted: over any whole number of rounds from a fresh
/// selector, every slot is selected equally often. After `n` rounds over a
/// pool of `k` backends, each slot below `k` was selected exactly `n` times.
pub proof fn lemma_rotation_counts(n: nat, k: nat, j: nat)
    requires
        0 < k,
        j < k,
        n * k <= usize::MAX as nat + 1,
    ensures
        rotation_slots(n * k, k).to_multiset().count(j) == n,
    decreases n,
{
    broadcast use vstd::seq_lib::group_to_multiset_ensures;
    broadcast use vstd::multiset::group_multiset_axioms;

    if n == 0 {
        assert(!rotation_slots(n * k, k).contains(j));
    } else {
        let m = (n - 1) as nat;
        vstd::arithmetic::mul::lemma_mul_is_distributive_add_other_way(
            k as int,
            m as int,
            1,
        );
        lemma_rotation_counts(m, k, j);
        let whole = rotation_slots(n * k, k);
        let front = rotation_slots(m * k, k);
        let round = Seq::new(k, |i: int| slot_of(cursor_after(0, (m * k + i) as nat), k));
        assert(whole =~= front + round);
        vstd::seq_lib::lemma_multiset_commutative(front, round);
        lemma_rotation_round(m, k);
        lemma_identity_block_count(k, j);
        assert(round.to_multiset().count(j) == 1);
    }
}

/// No duplicate observation: two distinct selections that lie within one
/// full cursor cycle of each other observe distinct pre-increment cursor
/// values, whatever the start value, so no two of them are routed by the
/// same counter value.
pub proof fn lemma_no_duplicate_observation(c0: nat, i: nat, j: nat)
    requires
        i < j,
        j - i <= usize::MAX as nat,
    ensures
        cursor_after(c0, i) != cursor_after(c0, j),
{
    let m = usize::MAX as nat + 1;
    let d = (j - i) as nat;
    let r = cursor_after(c0, i);
    vstd::arithmetic::div_mod::lemma_mod_bound((c0 + i) as int, m as int);
    vstd::arithmetic::div_mod::lemma_add_mod_noop((c0 + i) as int, d as int, m as int);
    vstd::arithmetic::div_mod::lemma_small_mod(d, m);
    assert(cursor_after(c0, j) == (r + d) % m);
    if r + d < m {
        vstd::arithmetic::div_mod::lemma_small_mod(r + d, m);
    } else {
        vstd::arithmetic::div_mod::lemma_mod_multiples_vanish(1, (r + d - m) as int, m as int);
        vstd::arithmetic::div_mod::lemma_small_mod((r + d - m) as nat, m);
    }
}

} // verus!
