//! The operations behind [`DynPool`](crate::DynPool).

use vstd::prelude::*;

use crate::{exhausted, free_slots, is_first_free, is_token_of, Token};

verus! {

/// A buffer descriptor: the named regions of one slot, together with the token
/// that gives the slot back.
pub trait SocketBuffers {
    /// What one slot holds, region by region, without the sizes of the regions.
    type Slot;

    /// The token of the slot that the regions were carved from.
    spec fn token(&self) -> Token;
}

/// Allocation and release of buffer descriptors of type `B`.
pub trait SealedDynPool<B: SocketBuffers> {
    /// The identity of the pool, which its tokens carry.
    spec fn pool_id(&self) -> usize;

    /// Which slots are taken, in slot order.
    spec fn occupancy(&self) -> Seq<bool>;

    /// What each slot holds in all its regions, in slot order.
    spec fn contents(&self) -> Seq<B::Slot>;

    /// Takes the lowest free slot and describes its regions, or returns `None`
    /// when every slot is taken.
    fn allocate(&mut self) -> (r: Option<B>)
        ensures
            final(self).pool_id() == old(self).pool_id(),
            final(self).contents() == old(self).contents(),
            r is Some <==> free_slots(old(self).occupancy()) > 0,
            r is Some ==> free_slots(final(self).occupancy()) + 1 == free_slots(
                old(self).occupancy(),
            ),
            match r {
                Some(buffers) => {
                    &&& buffers.token().pool() == old(self).pool_id()
                    &&& is_first_free(old(self).occupancy(), buffers.token()@)
                    &&& final(self).occupancy() == old(self).occupancy().update(buffers.token()@, true)
                },
                None => {
                    &&& exhausted(old(self).occupancy())
                    &&& final(self).occupancy() == old(self).occupancy()
                },
            },
    ;

    /// Whether this pool made `token` and its slot is taken.
    fn holds(&self, token: &Token) -> (b: bool)
        ensures
            b == is_token_of(self.pool_id(), self.occupancy(), *token),
    ;

    /// Gives the slot of `token` back to the pool.
    fn free(&mut self, token: Token)
        requires
            is_token_of(old(self).pool_id(), old(self).occupancy(), token),
        ensures
            final(self).pool_id() == old(self).pool_id(),
            final(self).occupancy() == old(self).occupancy().update(token@, false),
            final(self).contents() == old(self).contents(),
            free_slots(final(self).occupancy()) == free_slots(old(self).occupancy()) + 1,
    ;
}

} // verus!
