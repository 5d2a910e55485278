//! Turning plain counts and strategies into strategies, and composing them.

use crate::count::Notify;
use crate::count::NotifyAdditional;
use crate::decorate::Relaxed;
use crate::decorate::Tag;
use crate::decorate::TagWith;
use crate::strategy::Notification;
use vstd::prelude::*;

verus! {

/// A count that the native count width cannot hold.
#[derive(Debug, Clone, Copy, PartialEq, Eq, Structural)]
pub struct Overflow;

/// The strategy that plain counts turn into.
pub trait PlainCount {
}

impl PlainCount for Notify {
}

/// A value that stands for a notification strategy.
///
/// Every strategy stands for itself, and every integer for the [`Notify`]
/// that requests as many listeners.
pub trait IntoNotification {
    /// The payload of the strategy.
    type Tag;

    /// The strategy that the value turns into.
    type Notify: Notification<Tag = Self::Tag>;

    /// Whether the value can be turned into a strategy: for a count, whether
    /// the native count width holds it.
    spec fn representable(&self) -> bool;

    /// Whether `strategy` is what the value turns into.
    spec fn converts_to(&self, strategy: &Self::Notify) -> bool;

    /// The strategy that this value stands for.
    fn into_notification(self) -> (strategy: Self::Notify)
        requires
            self.representable(),
        ensures
            self.converts_to(&strategy),
    ;

    /// The strategy that this value stands for, or the overflow that keeps
    /// it from being one.
    fn try_into_notification(self) -> (outcome: Result<Self::Notify, Overflow>)
        ensures
            match outcome {
                Ok(strategy) => self.representable() && self.converts_to(&strategy),
                Err(_) => !self.representable(),
            },
    ;

    /// Reads the count as a number of further listeners: the result requests
    /// what the strategy of this value wakes when nobody is waiting.
    fn additional(self) -> (more: NotifyAdditional) where Self: Sized, Self::Notify: PlainCount
        requires
            self.representable(),
        ensures
            exists|strategy: Self::Notify| #[trigger]
                self.converts_to(&strategy) && more@ == strategy.wakes(0),
    {
        NotifyAdditional::new(self.into_notification().count(0))
    }

    /// Leaves the barrier out.
    fn relaxed(self) -> (relaxed: Relaxed<Self::Notify>) where Self: Sized
        requires
            self.representable(),
        ensures
            self.converts_to(relaxed.inner()),
    {
        Relaxed::new(self.into_notification())
    }

    /// Hands a clone of `tag` to every woken listener.
    fn tag<T: Clone>(self, tag: T) -> (tagged: Tag<Self::Notify, T>) where
        Self: Sized,
        Self::Notify: Notification<Tag = ()>,

        requires
            self.representable(),
        ensures
            tagged.value() == tag,
            self.converts_to(tagged.inner()),
    {
        Tag::new(tag, self.into_notification())
    }

    /// Hands every woken listener a value that `tag` computes anew.
    fn tag_with<T, F>(self, tag: F) -> (tagged: TagWith<Self::Notify, F>) where
        Self: Sized,
        Self::Notify: Notification<Tag = ()>,
        F: FnMut() -> T,

        requires
            self.representable(),
        ensures
            tagged.generator() == tag,
            self.converts_to(tagged.inner()),
    {
        TagWith::new(tag, self.into_notification())
    }
}

impl<N: Notification> IntoNotification for N {
    type Tag = N::Tag;

    type Notify = N;

    open spec fn representable(&self) -> bool {
        true
    }

    open spec fn converts_to(&self, strategy: &N) -> bool {
        strategy == self
    }

    fn into_notification(self) -> (strategy: N) {
        self
    }

    fn try_into_notification(self) -> (outcome: Result<N, Overflow>) {
        Ok(self)
    }
}

impl IntoNotification for usize {
    type Tag = ();

    type Notify = Notify;

    open spec fn representable(&self) -> bool {
        true
    }

    open spec fn converts_to(&self, strategy: &Notify) -> bool {
        strategy@ == *self
    }

    fn into_notification(self) -> (strategy: Notify) {
        Notify::new(self)
    }

    fn try_into_notification(self) -> (outcome: Result<Notify, Overflow>) {
        Ok(Notify::new(self))
    }
}

impl IntoNotification for u8 {
    type Tag = ();

    type Notify = Notify;

    open spec fn representable(&self) -> bool {
        true
    }

    open spec fn converts_to(&self, strategy: &Notify) -> bool {
        strategy@ == *self
    }

    fn into_notification(self) -> (strategy: Notify) {
        Notify::new(usize::from(self))
    }

    fn try_into_notification(self) -> (outcome: Result<Notify, Overflow>) {
        Ok(Notify::new(usize::from(self)))
    }
}

impl IntoNotification for u16 {
    type Tag = ();

    type Notify = Notify;

    open spec fn representable(&self) -> bool {
        true
    }

    open spec fn converts_to(&self, strategy: &Notify) -> bool {
        strategy@ == *self
    }

    fn into_notification(self) -> (strategy: Notify) {
        Notify::new(usize::from(self))
    }

    fn try_into_notification(self) -> (outcome: Result<Notify, Overflow>) {
        Ok(Notify::new(usize::from(self)))
    }
}

impl IntoNotification for u32 {
    type Tag = ();

    type Notify = Notify;

    open spec fn representable(&self) -> bool {
        *self <= usize::MAX
    }

    open spec fn converts_to(&self, strategy: &Notify) -> bool {
        strategy@ == *self
    }

    fn into_notification(self) -> (strategy: Notify) {
        Notify::new(usize::try_from(self).expect("overflow"))
    }

    fn try_into_notification(self) -> (outcome: Result<Notify, Overflow>) {
        match usize::try_from(self) {
            Ok(count) => Ok(Notify::new(count)),
            Err(_) => Err(Overflow),
        }
    }
}

impl IntoNotification for u64 {
    type Tag = ();

    type Notify = Notify;

    open spec fn representable(&self) -> bool {
        *self <= usize::MAX
    }

    open spec fn converts_to(&self, strategy: &Notify) -> bool {
        strategy@ == *self
    }

    fn into_notification(self) -> (strategy: Notify) {
        Notify::new(usize::try_from(self).expect("overflow"))
    }

    fn try_into_notification(self) -> (outcome: Result<Notify, Overflow>) {
        match usize::try_from(self) {
            Ok(count) => Ok(Notify::new(count)),
            Err(_) => Err(Overflow),
        }
    }
}

impl IntoNotification for u128 {
    type Tag = ();

    type Notify = Notify;

    open spec fn representable(&self) -> bool {
        *self <= usize::MAX
    }

    open spec fn converts_to(&self, strategy: &Notify) -> bool {
        strategy@ == *self
    }

    fn into_notification(self) -> (strategy: Notify) {
        Notify::new(usize::try_from(self).expect("overflow"))
    }

    fn try_into_notification(self) -> (outcome: Result<Notify, Overflow>) {
        match usize::try_from(self) {
            Ok(count) => Ok(Notify::new(count)),
            Err(_) => Err(Overflow),
        }
    }
}

impl IntoNotification for isize {
    type Tag = ();

    type Notify = Notify;

    open spec fn representable(&self) -> bool {
        0 <= *self <= usize::MAX
    }

    open spec fn converts_to(&self, strategy: &Notify) -> bool {
        strategy@ == *self
    }

    fn into_notification(self) -> (strategy: Notify) {
        Notify::new(usize::try_from(self).expect("overflow"))
    }

    fn try_into_notification(self) -> (outcome: Result<Notify, Overflow>) {
        match usize::try_from(self) {
            Ok(count) => Ok(Notify::new(count)),
            Err(_) => Err(Overflow),
        }
    }
}

impl IntoNotification for i8 {
    type Tag = ();

    type Notify = Notify;

    open spec fn representable(&self) -> bool {
        0 <= *self <= usize::MAX
    }

    open spec fn converts_to(&self, strategy: &Notify) -> bool {
        strategy@ == *self
    }

    fn into_notification(self) -> (strategy: Notify) {
        Notify::new(usize::try_from(self).expect("overflow"))
    }

    fn try_into_notification(self) -> (outcome: Result<Notify, Overflow>) {
        match usize::try_from(self) {
            Ok(count) => Ok(Notify::new(count)),
            Err(_) => Err(Overflow),
        }
    }
}

impl IntoNotification for i16 {
    type Tag = ();

    type Notify = Notify;

    open spec fn representable(&self) -> bool {
        0 <= *self <= usize::MAX
    }

    open spec fn converts_to(&self, strategy: &Notify) -> bool {
        strategy@ == *self
    }

    fn into_notification(self) -> (strategy: Notify) {
        Notify::new(usize::try_from(self).expect("overflow"))
    }

    fn try_into_notification(self) -> (outcome: Result<Notify, Overflow>) {
        match usize::try_from(self) {
            Ok(count) => Ok(Notify::new(count)),
            Err(_) => Err(Overflow),
        }
    }
}

impl IntoNotification for i32 {
    type Tag = ();

    type Notify = Notify;

    open spec fn representable(&self) -> bool {
        0 <= *self <= usize::MAX
    }

    open spec fn converts_to(&self, strategy: &Notify) -> bool {
        strategy@ == *self
    }

    fn into_notification(self) -> (strategy: Notify) {
        Notify::new(usize::try_from(self).expect("overflow"))
    }

    fn try_into_notification(self) -> (outcome: Result<Notify, Overflow>) {
        match usize::try_from(self) {
            Ok(count) => Ok(Notify::new(count)),
            Err(_) => Err(Overflow),
        }
    }
}

impl IntoNotification for i64 {
    type Tag = ();

    type Notify = Notify;

    open spec fn representable(&self) -> bool {
        0 <= *self <= usize::MAX
    }

    open spec fn converts_to(&self, strategy: &Notify) -> bool {
        strategy@ == *self
    }

    fn into_notification(self) -> (strategy: Notify) {
        Notify::new(usize::try_from(self).expect("overflow"))
    }

    fn try_into_notification(self) -> (outcome: Result<Notify, Overflow>) {
        match usize::try_from(self) {
            Ok(count) => Ok(Notify::new(count)),
            Err(_) => Err(Overflow),
        }
    }
}

impl IntoNotification for i128 {
    type Tag = ();

    type Notify = Notify;

    open spec fn representable(&self) -> bool {
        0 <= *self <= usize::MAX
    }

    open spec fn converts_to(&self, strategy: &Notify) -> bool {
        strategy@ == *self
    }

    fn into_notification(self) -> (strategy: Notify) {
        Notify::new(usize::try_from(self).expect("overflow"))
    }

    fn try_into_notification(self) -> (outcome: Result<Notify, Overflow>) {
        match usize::try_from(self) {
            Ok(count) => Ok(Notify::new(count)),
            Err(_) => Err(Overflow),
        }
    }
}

} // verus!
