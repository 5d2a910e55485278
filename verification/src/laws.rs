//! What holds of the strategies beyond a single call.

use crate::count::Notify;
use crate::count::NotifyAdditional;
use crate::decorate::Relaxed;
use crate::decorate::Tag;
use crate::decorate::TagWith;
use crate::strategy::hands_out_all;
use crate::strategy::Notification;
use vstd::prelude::*;

verus! {

/// Whether cloning a `T` always gives back an equal value.
pub open spec fn clone_is_exact<T: Clone>() -> bool {
    forall|value: T, copy: T| #[trigger] cloned(value, copy) ==> copy == value
}

/// With the same request, topping up never wakes more listeners than waking
/// further ones, and the two agree exactly when nobody waits or nothing is
/// requested.
pub proof fn lemma_top_up_wakes_no_more(top_up: Notify, further: NotifyAdditional, waiting: nat)
    requires
        top_up@ == further@,
    ensures
        top_up.wakes(waiting) <= further.wakes(waiting),
        top_up.wakes(waiting) == further.wakes(waiting) <==> waiting == 0 || top_up@ == 0,
        top_up.wakes(waiting) + waiting >= top_up@,
{
}

/// A relaxed strategy leaves the barrier out whatever it wraps, and wakes as
/// many listeners as the wrapped strategy; the base strategies call for the
/// barrier.
pub proof fn lemma_relaxed_leaves_the_barrier_out<N: Notification>(
    relaxed: Relaxed<N>,
    top_up: Notify,
    further: NotifyAdditional,
    waiting: nat,
)
    ensures
        !relaxed.fenced(),
        relaxed.wakes(waiting) == relaxed.inner().wakes(waiting),
        top_up.fenced(),
        further.fenced(),
{
}

/// Whatever a relaxed strategy hands out in a run, the wrapped strategy hands
/// out in a run of its own.
pub proof fn lemma_relaxed_hands_out_the_same<N: Notification>(
    start: Relaxed<N>,
    tags: Seq<N::Tag>,
    end: Relaxed<N>,
)
    requires
        hands_out_all(start, tags, end),
    ensures
        hands_out_all(*start.inner(), tags, *end.inner()),
    decreases tags.len(),
{
    if tags.len() > 0 {
        let mid = choose|mid: Relaxed<N>| #[trigger]
            start.hands_out(tags[0], &mid) && hands_out_all(mid, tags.drop_first(), end);
        lemma_relaxed_hands_out_the_same(mid, tags.drop_first(), end);
        assert(start.inner().hands_out(tags[0], mid.inner()));
    }
}

/// However often `Tag` is asked for a payload, it stays as it was, with the
/// count and the barrier of the strategy it wraps, and every payload is a
/// clone of its value; where cloning is exact, every payload equals that
/// value.
pub proof fn lemma_tag_hands_out_clones<N: Notification, T: Clone>(
    start: Tag<N, T>,
    tags: Seq<T>,
    end: Tag<N, T>,
)
    requires
        hands_out_all(start, tags, end),
    ensures
        end == start,
        end.fenced() == start.inner().fenced(),
        forall|waiting: nat| #[trigger] end.wakes(waiting) == start.inner().wakes(waiting),
        forall|i: int| 0 <= i < tags.len() ==> cloned(start.value(), #[trigger] tags[i]),
        clone_is_exact::<T>() ==> forall|i: int|
            0 <= i < tags.len() ==> #[trigger] tags[i] == start.value(),
    decreases tags.len(),
{
    if tags.len() > 0 {
        let mid = choose|mid: Tag<N, T>| #[trigger]
            start.hands_out(tags[0], &mid) && hands_out_all(mid, tags.drop_first(), end);
        lemma_tag_hands_out_clones(mid, tags.drop_first(), end);
        assert forall|i: int| 0 <= i < tags.len() implies cloned(
            start.value(),
            #[trigger] tags[i],
        ) by {
            if i > 0 {
                assert(tags[i] == tags.drop_first()[i - 1]);
            }
        }
    }
}

/// However often `TagWith` is asked for a payload, it stays as it was, with
/// the count and the barrier of the strategy it wraps, and every payload is
/// the result of a call of its generator.
pub proof fn lemma_tag_with_hands_out_results<N: Notification, F: FnMut() -> T, T>(
    start: TagWith<N, F>,
    tags: Seq<T>,
    end: TagWith<N, F>,
)
    requires
        hands_out_all(start, tags, end),
    ensures
        end == start,
        end.fenced() == start.inner().fenced(),
        forall|waiting: nat| #[trigger] end.wakes(waiting) == start.inner().wakes(waiting),
        forall|i: int|
            0 <= i < tags.len() ==> call_ensures(start.generator(), (), #[trigger] tags[i]),
    decreases tags.len(),
{
    if tags.len() > 0 {
        let mid = choose|mid: TagWith<N, F>| #[trigger]
            start.hands_out(tags[0], &mid) && hands_out_all(mid, tags.drop_first(), end);
        lemma_tag_with_hands_out_results(mid, tags.drop_first(), end);
        assert forall|i: int| 0 <= i < tags.len() implies call_ensures(
            start.generator(),
            (),
            #[trigger] tags[i],
        ) by {
            if i > 0 {
                assert(tags[i] == tags.drop_first()[i - 1]);
            }
        }
    }
}

} // verus!
