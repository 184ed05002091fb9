//! The occupancy of a pool as contracts see it: one flag per slot, in slot
//! order, and what allocation and release do to the flags.

use vstd::prelude::*;

verus! {

/// `i` is the lowest free slot of `used`: it is free, and every slot below
/// it is taken, the one next to it among them.
pub open spec fn is_first_free(used: Seq<bool>, i: int) -> bool {
    &&& 0 <= i < used.len()
    &&& !used[i]
    &&& forall|j: int| 0 <= j < i ==> used[j]
    &&& i > 0 ==> used[i - 1]
}

/// Every slot of `used` is taken.
pub open spec fn exhausted(used: Seq<bool>) -> bool {
    forall|j: int| 0 <= j < used.len() ==> used[j]
}

/// `token` names a slot of `used` that is taken.
pub open spec fn is_live(used: Seq<bool>, token: int) -> bool {
    0 <= token < used.len() && used[token]
}

/// The number of free slots of `used`.
pub open spec fn free_slots(used: Seq<bool>) -> nat
    decreases used.len(),
{
    if used.len() == 0 {
        0
    } else if used.last() {
        free_slots(used.drop_last())
    } else {
        free_slots(used.drop_last()) + 1
    }
}

/// The occupancy of a pool of `n` slots that are all free.
pub open spec fn fresh(n: nat) -> Seq<bool> {
    Seq::new(n, |i: int| false)
}

/// The lowest free slot of `used`, where `used` has a free slot.
pub open spec fn first_free(used: Seq<bool>) -> int {
    choose|i: int| is_first_free(used, i)
}

/// The occupancy after one allocation: the lowest free slot is taken, and an
/// exhausted pool stays as it is.
pub open spec fn allocated(used: Seq<bool>) -> Seq<bool> {
    if exhausted(used) {
        used
    } else {
        used.update(first_free(used), true)
    }
}

/// The occupancy after `k` allocations in a row, with nothing freed between them.
pub open spec fn after_allocations(used: Seq<bool>, k: nat) -> Seq<bool>
    decreases k,
{
    if k == 0 {
        used
    } else {
        allocated(after_allocations(used, (k - 1) as nat))
    }
}

/// The slot that the allocation after `k` earlier ones returns, or `None`
/// where the pool is exhausted by then.
pub open spec fn nth_allocation(used: Seq<bool>, k: nat) -> Option<int> {
    let before = after_allocations(used, k);
    if exhausted(before) {
        None
    } else {
        Some(first_free(before))
    }
}

/// A pool has at most as many free slots as it has slots, and it is exhausted
/// exactly when it has no free slot.
pub proof fn lemma_free_slots(used: Seq<bool>)
    ensures
        free_slots(used) <= used.len(),
        exhausted(used) <==> free_slots(used) == 0,
    decreases used.len(),
{
    if used.len() > 0 {
        let front = used.drop_last();
        lemma_free_slots(front);
        if exhausted(used) {
            assert forall|j: int| 0 <= j < front.len() implies front[j] by {
                assert(used[j]);
            }
        }
        if free_slots(used) == 0 {
            assert forall|j: int| 0 <= j < used.len() implies used[j] by {
                if j < front.len() {
                    assert(front[j]);
                }
            }
        }
    }
}

/// Taking a free slot leaves one free slot less, and freeing a taken slot
/// leaves one more.
pub proof fn lemma_free_slots_update(used: Seq<bool>, i: int, taken: bool)
    requires
        0 <= i < used.len(),
        used[i] != taken,
    ensures
        taken ==> free_slots(used.update(i, taken)) + 1 == free_slots(used),
        !taken ==> free_slots(used.update(i, taken)) == free_slots(used) + 1,
    decreases used.len(),
{
    let front = used.drop_last();
    let after = used.update(i, taken);
    lemma_free_slots(front);
    if i == used.len() - 1 {
        assert(after.drop_last() =~= front);
    } else {
        lemma_free_slots_update(front, i, taken);
        assert(after.drop_last() =~= front.update(i, taken));
    }
}

/// Every slot of a pool of `n` free slots is free.
pub proof fn lemma_free_slots_fresh(n: nat)
    ensures
        free_slots(fresh(n)) == n,
    decreases n,
{
    if n > 0 {
        lemma_free_slots_fresh((n - 1) as nat);
        assert(fresh(n).drop_last() =~= fresh((n - 1) as nat));
    }
}

/// A pool that is not exhausted has exactly one lowest free slot.
pub proof fn lemma_first_free(used: Seq<bool>)
    ensures
        !exhausted(used) ==> is_first_free(used, first_free(used)),
        forall|i: int| is_first_free(used, i) ==> i == first_free(used) && !exhausted(used),
{
    if !exhausted(used) {
        lemma_lowest_free_below(used, used.len() as int);
    }
    assert forall|i: int| is_first_free(used, i) implies i == first_free(used) && !exhausted(
        used,
    ) by {
        let j = first_free(used);
        assert(is_first_free(used, j));
        if i < j {
            assert(used[i]);
        }
        if j < i {
            assert(used[j]);
        }
    }
}

/// Among the first `bound` slots, a free slot has a lowest free slot at or below it.
proof fn lemma_lowest_free_below(used: Seq<bool>, bound: int)
    requires
        0 <= bound <= used.len(),
        exists|i: int| 0 <= i < bound && !used[i],
    ensures
        exists|i: int| 0 <= i < bound && is_first_free(used, i),
    decreases bound,
{
    if exists|i: int| 0 <= i < bound - 1 && !used[i] {
        lemma_lowest_free_below(used, bound - 1);
    } else {
        assert(is_first_free(used, bound - 1));
    }
}

/// Allocations in a row never change the number of slots, and never free a slot.
pub proof fn lemma_allocations_keep(used: Seq<bool>, k: nat)
    ensures
        after_allocations(used, k).len() == used.len(),
        forall|i: int| 0 <= i < used.len() && used[i] ==> after_allocations(used, k)[i],
    decreases k,
{
    if k > 0 {
        let before = after_allocations(used, (k - 1) as nat);
        lemma_allocations_keep(used, (k - 1) as nat);
        lemma_first_free(before);
    }
}

/// From a pool of `n` free slots, the allocations in a row return the slots
/// `0`, `1`, ... in this order: `n` allocations succeed with `n` different
/// tokens, and the allocation after them finds the pool exhausted.
pub proof fn lemma_fresh_pool_allocations(n: nat, k: nat)
    requires
        k <= n,
    ensures
        after_allocations(fresh(n), k) == Seq::new(n, |i: int| i < k),
        k < n ==> nth_allocation(fresh(n), k) == Some(k as int),
        k == n ==> nth_allocation(fresh(n), k) == None::<int>,
    decreases k,
{
    let now = Seq::new(n, |i: int| i < k);
    if k == 0 {
        assert(after_allocations(fresh(n), k) =~= now);
    } else {
        lemma_fresh_pool_allocations(n, (k - 1) as nat);
        let before = Seq::new(n, |i: int| i < k - 1);
        assert(is_first_free(before, k - 1));
        lemma_first_free(before);
        assert(allocated(before) =~= now);
    }
    if k < n {
        assert(is_first_free(now, k as int));
        lemma_first_free(now);
    }
}

/// Two allocations in a row, with nothing freed between them, never return
/// the same slot.
pub proof fn lemma_allocations_distinct(used: Seq<bool>, j: nat, k: nat)
    requires
        j < k,
        nth_allocation(used, j) is Some,
        nth_allocation(used, k) is Some,
    ensures
        nth_allocation(used, j) != nth_allocation(used, k),
{
    let first = after_allocations(used, j);
    lemma_first_free(first);
    lemma_allocations_keep(used, j);
    let slot = first_free(first);
    // The slot of the earlier allocation is taken from then on.
    let then = after_allocations(used, j + 1);
    assert(then == allocated(first));
    assert(then[slot]);
    lemma_allocations_from(used, j + 1, (k - j - 1) as nat);
    lemma_allocations_keep(then, (k - j - 1) as nat);
    let later = after_allocations(used, k);
    assert(later[slot]);
    lemma_first_free(later);
}

/// `k` allocations after `j` allocations are `j + k` allocations.
proof fn lemma_allocations_from(used: Seq<bool>, j: nat, k: nat)
    ensures
        after_allocations(after_allocations(used, j), k) == after_allocations(used, j + k),
    decreases k,
{
    if k > 0 {
        lemma_allocations_from(used, j, (k - 1) as nat);
    }
}

/// An allocation never returns a slot that is taken: a new token never stands
/// for the slot of a token that is still held.
pub proof fn lemma_allocation_is_not_live(used: Seq<bool>, slot: int, held: int)
    requires
        is_first_free(used, slot),
        is_live(used, held),
    ensures
        slot != held,
{
}

/// Allocations in a row take the free slots one by one: after `k` of them,
/// `k` free slots less are left, or none.
pub proof fn lemma_allocations_count(used: Seq<bool>, k: nat)
    ensures
        free_slots(after_allocations(used, k)) == if k <= free_slots(used) {
            (free_slots(used) - k) as nat
        } else {
            0
        },
    decreases k,
{
    if k > 0 {
        let before = after_allocations(used, (k - 1) as nat);
        lemma_allocations_count(used, (k - 1) as nat);
        lemma_free_slots(before);
        if !exhausted(before) {
            lemma_first_free(before);
            lemma_free_slots_update(before, first_free(before), true);
        }
    }
}

/// Of the allocations in a row, exactly as many succeed as the pool has free
/// slots: the first `free_slots(used)` of them, and none after.
pub proof fn lemma_allocations_succeed(used: Seq<bool>, k: nat)
    ensures
        nth_allocation(used, k) is Some <==> k < free_slots(used),
{
    lemma_allocations_count(used, k);
    lemma_free_slots(after_allocations(used, k));
}

/// A free slot is returned by one of the allocations in a row that exhaust
/// the pool.
pub proof fn lemma_free_slot_is_allocated(used: Seq<bool>, slot: int)
    requires
        0 <= slot < used.len(),
        !used[slot],
    ensures
        exists|k: nat| k < used.len() && #[trigger] nth_allocation(used, k) == Some(slot),
{
    let n = used.len();
    lemma_free_slots(used);
    lemma_allocations_count(used, n);
    lemma_allocations_keep(used, n);
    lemma_free_slots(after_allocations(used, n));
    assert(after_allocations(used, n)[slot]);
    lemma_taken_slot_was_allocated(used, slot, n);
}

/// A slot that was free and is taken after `k` allocations in a row was
/// returned by one of them.
proof fn lemma_taken_slot_was_allocated(used: Seq<bool>, slot: int, k: nat)
    requires
        0 <= slot < used.len(),
        !used[slot],
        after_allocations(used, k)[slot],
    ensures
        exists|j: nat| j < k && #[trigger] nth_allocation(used, j) == Some(slot),
    decreases k,
{
    if k > 0 {
        let before = after_allocations(used, (k - 1) as nat);
        lemma_allocations_keep(used, (k - 1) as nat);
        if before[slot] {
            lemma_taken_slot_was_allocated(used, slot, (k - 1) as nat);
            let j = choose|j: nat| j < k - 1 && #[trigger] nth_allocation(used, j) == Some(slot);
            assert(j < k && nth_allocation(used, j) == Some(slot));
        } else {
            lemma_first_free(before);
            assert(nth_allocation(used, (k - 1) as nat) == Some(slot));
        }
    }
}

/// A freed slot is free for exactly one later allocation. Of the allocations
/// that follow the release, one returns it if they go on until the pool is
/// exhausted, no two of them do, and the next one does where every lower slot
/// is taken.
pub proof fn lemma_freed_slot_is_reused_once(used: Seq<bool>, token: int, j: nat, k: nat)
    requires
        is_live(used, token),
        j < k,
    ensures
        !exhausted(used.update(token, false)),
        first_free(used.update(token, false)) <= token,
        exists|m: nat|
            m < used.len() && #[trigger] nth_allocation(used.update(token, false), m) == Some(
                token,
            ),
        (forall|i: int| 0 <= i < token ==> used[i]) ==> nth_allocation(
            used.update(token, false),
            0,
        ) == Some(token),
        !(nth_allocation(used.update(token, false), j) == Some(token) && nth_allocation(
            used.update(token, false),
            k,
        ) == Some(token)),
{
    let freed = used.update(token, false);
    assert(!freed[token]);
    lemma_first_free(freed);
    lemma_free_slot_is_allocated(freed, token);
    if first_free(freed) > token {
        assert(freed[token]);
    }
    if forall|i: int| 0 <= i < token ==> used[i] {
        assert(is_first_free(freed, token));
    }
    if nth_allocation(freed, j) == Some(token) && nth_allocation(freed, k) == Some(token) {
        lemma_allocations_distinct(freed, j, k);
    }
}

/// Allocation and release undo each other: after a slot was allocated and
/// freed, the pool is as before, and the next allocation returns that slot again.
pub proof fn lemma_round_trip(used: Seq<bool>, slot: int)
    requires
        is_first_free(used, slot),
    ensures
        used.update(slot, true).update(slot, false) == used,
        is_first_free(used.update(slot, true).update(slot, false), slot),
{
    assert(used.update(slot, true).update(slot, false) =~= used);
}

} // verus!
