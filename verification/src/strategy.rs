//! The interface that every notification strategy implements.

use vstd::prelude::*;

verus! {

/// The decisions behind one notify operation.
///
/// The caller issues the barrier with `fence`, asks `count` how many listeners
/// to wake, and then calls `next_tag` once for each of them.
pub trait Notification {
    /// The payload handed to each woken listener.
    type Tag;

    /// Whether this strategy calls for a barrier before listeners are woken.
    spec fn fenced(&self) -> bool;

    /// How many listeners to wake when `waiting` of them are already blocked.
    spec fn wakes(&self, waiting: nat) -> nat;

    /// Whether the strategy is able to produce a payload.
    spec fn can_tag(&self) -> bool;

    /// Whether `next_tag` may hand out `tag` and leave the strategy as `after`.
    spec fn hands_out(&self, tag: Self::Tag, after: &Self) -> bool;

    /// Issues the barrier if the strategy calls for one, and reports whether
    /// it did.
    fn fence(&self) -> (issued: bool)
        ensures
            issued == self.fenced(),
    ;

    /// The number of listeners to wake, given the number that are waiting.
    fn count(&self, waiting: usize) -> (n: usize)
        ensures
            n == self.wakes(waiting as nat),
    ;

    /// The payload for the next woken listener.
    fn next_tag(&mut self) -> (tag: Self::Tag)
        requires
            old(self).can_tag(),
        ensures
            old(self).hands_out(tag, &*final(self)),
            final(self).can_tag(),
    ;
}

/// Whether `tags` is what `tags.len()` successive calls of `next_tag` may hand
/// out, taking the strategy from `start` to `end`.
pub open spec fn hands_out_all<N: Notification>(start: N, tags: Seq<N::Tag>, end: N) -> bool
    decreases tags.len(),
{
    if tags.len() == 0 {
        end == start
    } else {
        exists|mid: N| #[trigger]
            start.hands_out(tags[0], &mid) && hands_out_all(mid, tags.drop_first(), end)
    }
}

} // verus!
