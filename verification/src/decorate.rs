//! Decorators, each of which wraps one strategy and changes one of its
//! decisions.

use crate::strategy::Notification;
use vstd::prelude::*;

verus! {

/// Leaves the barrier out; everything else is the wrapped strategy's.
#[derive(Debug)]
pub struct Relaxed<N: ?Sized>(N);

impl<N: ?Sized> Relaxed<N> {
    /// The wrapped strategy.
    pub closed spec fn inner(&self) -> &N {
        &self.0
    }
}

impl<N> Relaxed<N> {
    /// Wraps `inner` so that no barrier is issued for it.
    pub fn new(inner: N) -> (relaxed: Self)
        ensures
            relaxed.inner() == inner,
    {
        Self(inner)
    }
}

impl<N: ?Sized> Relaxed<N> {
    /// Hands out what the wrapped strategy hands out.
    ///
    /// This is what [`Notification::next_tag`] does for this type. Here the
    /// payload type is a parameter of the call and not derived from the
    /// wrapped type, so that a caller that holds a concrete strategy learns
    /// what the wrapped strategy promises.
    pub fn next_tag<T>(&mut self) -> (tag: T) where N: Notification<Tag = T>
        requires
            old(self).inner().can_tag(),
        ensures
            old(self).inner().hands_out(tag, final(self).inner()),
            final(self).inner().can_tag(),
    {
        self.0.next_tag()
    }
}

impl<N: Clone> Clone for Relaxed<N> {
    fn clone(&self) -> (copy: Self)
        ensures
            cloned(*self.inner(), *copy.inner()),
    {
        Self(self.0.clone())
    }
}

impl<N> Notification for Relaxed<N> where N: Notification + ?Sized {
    type Tag = N::Tag;

    open spec fn fenced(&self) -> bool {
        false
    }

    open spec fn wakes(&self, waiting: nat) -> nat {
        self.inner().wakes(waiting)
    }

    open spec fn can_tag(&self) -> bool {
        self.inner().can_tag()
    }

    open spec fn hands_out(&self, tag: N::Tag, after: &Self) -> bool {
        self.inner().hands_out(tag, after.inner())
    }

    fn fence(&self) -> (issued: bool)
        ensures
            !issued,
    {
        false
    }

    fn count(&self, waiting: usize) -> (n: usize)
        ensures
            n == self.inner().wakes(waiting as nat),
    {
        self.0.count(waiting)
    }

    fn next_tag(&mut self) -> (tag: N::Tag)
        ensures
            old(self).inner().hands_out(tag, final(self).inner()),
    {
        Relaxed::next_tag(self)
    }
}

/// Hands a clone of one fixed value to every woken listener.
#[derive(Debug)]
pub struct Tag<N: ?Sized, T> {
    tag: T,
    inner: N,
}

impl<N: ?Sized, T> Tag<N, T> {
    /// The value whose clones are handed out.
    pub closed spec fn value(&self) -> T {
        self.tag
    }

    /// The wrapped strategy.
    pub closed spec fn inner(&self) -> &N {
        &self.inner
    }

    /// Attaches `tag` to `inner`, which hands out no payload of its own.
    pub fn new(tag: T, inner: N) -> (tagged: Self) where N: Notification<Tag = ()> + Sized
        ensures
            tagged.value() == tag,
            tagged.inner() == inner,
    {
        Self { tag, inner }
    }
}

impl<N: Clone, T: Clone> Clone for Tag<N, T> {
    fn clone(&self) -> (copy: Self)
        ensures
            cloned(self.value(), copy.value()),
            cloned(*self.inner(), *copy.inner()),
    {
        Self { tag: self.tag.clone(), inner: self.inner.clone() }
    }
}

impl<N, T> Notification for Tag<N, T> where N: Notification + ?Sized, T: Clone {
    type Tag = T;

    open spec fn fenced(&self) -> bool {
        self.inner().fenced()
    }

    open spec fn wakes(&self, waiting: nat) -> nat {
        self.inner().wakes(waiting)
    }

    open spec fn can_tag(&self) -> bool {
        true
    }

    open spec fn hands_out(&self, tag: T, after: &Self) -> bool {
        cloned(self.value(), tag) && after == self
    }

    fn fence(&self) -> (issued: bool)
        ensures
            issued == self.inner().fenced(),
    {
        self.inner.fence()
    }

    fn count(&self, waiting: usize) -> (n: usize)
        ensures
            n == self.inner().wakes(waiting as nat),
    {
        self.inner.count(waiting)
    }

    fn next_tag(&mut self) -> (tag: T)
        ensures
            cloned(old(self).value(), tag),
            &*final(self) == &*old(self),
    {
        self.tag.clone()
    }
}

/// Hands each woken listener a value that a generator computes anew.
///
/// The generator is called once for every payload. What it promises of its
/// result is its own postcondition, and the payload is known to meet it. A
/// function value is the same value after a call as before it: what a
/// generator keeps from one call to the next is no part of that value, so
/// nothing is said of how one payload depends on the calls before it.
pub struct TagWith<N: ?Sized, F> {
    tag: F,
    inner: N,
}

impl<N: ?Sized, F> TagWith<N, F> {
    /// The generator that computes the payloads.
    pub closed spec fn generator(&self) -> F {
        self.tag
    }

    /// The wrapped strategy.
    pub closed spec fn inner(&self) -> &N {
        &self.inner
    }
}

impl<N, F> TagWith<N, F> {
    /// Attaches the generator `tag` to `inner`, which hands out no payload of
    /// its own.
    pub fn new(tag: F, inner: N) -> (tagged: Self) where N: Notification<Tag = ()>
        ensures
            tagged.generator() == tag,
            tagged.inner() == inner,
    {
        Self { tag, inner }
    }
}

impl<N: ?Sized, F> TagWith<N, F> {
    /// Calls the generator once and hands out what it returns.
    ///
    /// This is what [`Notification::next_tag`] does for this type. Here the
    /// payload type is a parameter of the call and not derived from the
    /// generator's type, so that a caller that holds a concrete generator
    /// learns the generator's own postcondition.
    pub fn next_tag<T>(&mut self) -> (tag: T) where F: FnMut() -> T
        requires
            call_requires(old(self).generator(), ()),
        ensures
            call_ensures(old(self).generator(), (), tag),
            &*final(self) == &*old(self),
    {
        (self.tag)()
    }
}

impl<N, F, T> Notification for TagWith<N, F> where N: Notification + ?Sized, F: FnMut() -> T {
    type Tag = T;

    open spec fn fenced(&self) -> bool {
        self.inner().fenced()
    }

    open spec fn wakes(&self, waiting: nat) -> nat {
        self.inner().wakes(waiting)
    }

    open spec fn can_tag(&self) -> bool {
        call_requires(self.generator(), ())
    }

    open spec fn hands_out(&self, tag: T, after: &Self) -> bool {
        call_ensures(self.generator(), (), tag) && after == self
    }

    fn fence(&self) -> (issued: bool)
        ensures
            issued == self.inner().fenced(),
    {
        self.inner.fence()
    }

    fn count(&self, waiting: usize) -> (n: usize)
        ensures
            n == self.inner().wakes(waiting as nat),
    {
        self.inner.count(waiting)
    }

    fn next_tag(&mut self) -> (tag: T)
        ensures
            call_ensures(old(self).generator(), (), tag),
            &*final(self) == &*old(self),
    {
        TagWith::next_tag(self)
    }
}

} // verus!
