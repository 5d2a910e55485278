//! Notification strategies for a wait/notify primitive.
//!
//! A strategy answers three questions for one notify operation: whether a
//! memory barrier has to be issued first, how many blocked listeners to wake,
//! and which payload each woken listener receives.

pub mod convert;
pub mod count;
pub mod decorate;
pub mod fence;
pub mod laws;
pub mod strategy;

pub use crate::convert::IntoNotification;
pub use crate::convert::Overflow;
pub use crate::convert::PlainCount;
pub use crate::count::Notify;
pub use crate::count::NotifyAdditional;
pub use crate::decorate::Relaxed;
pub use crate::decorate::Tag;
pub use crate::decorate::TagWith;
pub use crate::fence::exchange_fence;
pub use crate::fence::fence_on;
pub use crate::fence::fence_path;
pub use crate::fence::full_fence;
pub use crate::fence::FencePath;
pub use crate::strategy::Notification;
