//! The two base strategies, which differ in how they count listeners that are
//! already waiting.

use crate::fence::full_fence;
use crate::strategy::Notification;
use vstd::prelude::*;
use vstd::std_specs::convert::FromSpecImpl;

verus! {

/// Top the woken listeners up to a requested total: listeners that are
/// already waiting count towards it.
#[derive(Debug)]
pub struct Notify(usize);

impl View for Notify {
    type V = nat;

    /// The requested total.
    closed spec fn view(&self) -> nat {
        self.0 as nat
    }
}

impl Notify {
    /// A strategy that tops the woken listeners up to `count`.
    pub fn new(count: usize) -> (n: Self)
        ensures
            n@ == count,
    {
        Self(count)
    }
}

impl Clone for Notify {
    fn clone(&self) -> (copy: Self)
        ensures
            copy == *self,
    {
        Self(self.0)
    }
}

impl From<usize> for Notify {
    fn from(count: usize) -> (n: Self)
        ensures
            n@ == count,
    {
        Self::new(count)
    }
}

impl FromSpecImpl<usize> for Notify {
    open spec fn obeys_from_spec() -> bool {
        true
    }

    closed spec fn from_spec(count: usize) -> Self {
        Notify(count)
    }
}

impl Notification for Notify {
    type Tag = ();

    open spec fn fenced(&self) -> bool {
        true
    }

    open spec fn wakes(&self, waiting: nat) -> nat {
        if self@ >= waiting {
            (self@ - waiting) as nat
        } else {
            0
        }
    }

    open spec fn can_tag(&self) -> bool {
        true
    }

    open spec fn hands_out(&self, tag: (), after: &Self) -> bool {
        after == self
    }

    fn fence(&self) -> (issued: bool)
        ensures
            issued,
    {
        full_fence();
        true
    }

    fn count(&self, waiting: usize) -> (n: usize)
        ensures
            n == vstd::math::max(0, self@ - waiting),
    {
        self.0.saturating_sub(waiting)
    }

    fn next_tag(&mut self) -> (tag: ())
        ensures
            *final(self) == *old(self),
    {
    }
}

/// Wake a requested number of further listeners, however many are already
/// waiting.
#[derive(Debug)]
pub struct NotifyAdditional(usize);

impl View for NotifyAdditional {
    type V = nat;

    /// The requested number of further listeners.
    closed spec fn view(&self) -> nat {
        self.0 as nat
    }
}

impl NotifyAdditional {
    /// A strategy that wakes `count` further listeners.
    pub fn new(count: usize) -> (n: Self)
        ensures
            n@ == count,
    {
        Self(count)
    }
}

impl Clone for NotifyAdditional {
    fn clone(&self) -> (copy: Self)
        ensures
            copy == *self,
    {
        Self(self.0)
    }
}

impl From<usize> for NotifyAdditional {
    fn from(count: usize) -> (n: Self)
        ensures
            n@ == count,
    {
        Self::new(count)
    }
}

impl FromSpecImpl<usize> for NotifyAdditional {
    open spec fn obeys_from_spec() -> bool {
        true
    }

    closed spec fn from_spec(count: usize) -> Self {
        NotifyAdditional(count)
    }
}

impl Notification for NotifyAdditional {
    type Tag = ();

    open spec fn fenced(&self) -> bool {
        true
    }

    open spec fn wakes(&self, waiting: nat) -> nat {
        self@
    }

    open spec fn can_tag(&self) -> bool {
        true
    }

    open spec fn hands_out(&self, tag: (), after: &Self) -> bool {
        after == self
    }

    fn fence(&self) -> (issued: bool)
        ensures
            issued,
    {
        full_fence();
        true
    }

    fn count(&self, waiting: usize) -> (n: usize)
        ensures
            n == self@,
    {
        self.0
    }

    fn next_tag(&mut self) -> (tag: ())
        ensures
            *final(self) == *old(self),
    {
    }
}

} // verus!
