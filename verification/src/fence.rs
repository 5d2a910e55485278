//! The memory barrier that is issued before listeners are woken.
//!
//! A write made before the barrier is visible to every listener that sees
//! the wake signal sent after it. There are two ways to issue it, with the
//! same guarantee: a sequentially consistent fence, and a sequentially
//! consistent compare-and-exchange on a cell that nobody else sees, which is
//! the faster instruction on some targets.

use core::sync::atomic::AtomicUsize;
use core::sync::atomic::Ordering;
use vstd::prelude::*;

verus! {

/// The two ways of issuing the barrier.
#[derive(Debug, Clone, Copy, PartialEq, Eq, Structural)]
pub enum FencePath {
    /// A compare-and-exchange on a throwaway cell, between two compiler
    /// barriers.
    Exchange,
    /// A fence instruction.
    Direct,
}

/// `core::sync::atomic::fence` with the given ordering. The call returns
/// nothing, and it panics exactly when the ordering is `Relaxed`, which the
/// precondition rules out.
#[verifier::external_body]
fn atomic_fence(order: Ordering)
    requires
        order != Ordering::Relaxed,
{
    core::sync::atomic::fence(order)
}

/// `core::sync::atomic::compiler_fence` returns nothing, and it panics
/// exactly when the ordering is `Relaxed`, which the precondition rules out.
pub assume_specification[ core::sync::atomic::compiler_fence ](order: Ordering)
    requires
        order != Ordering::Relaxed,
;

/// The path to take on a target where the exchange is or is not the cheaper
/// instruction, in a build whose memory accesses are or are not analysed.
///
/// The exchange is taken only where it is cheaper, and never in an analysed
/// build, where the analysis has to see a plain fence.
pub fn fence_path(exchange_is_cheaper: bool, memory_analysed: bool) -> (path: FencePath)
    ensures
        path == FencePath::Exchange <==> exchange_is_cheaper && !memory_analysed,
        path == FencePath::Direct <==> !exchange_is_cheaper || memory_analysed,
{
    if exchange_is_cheaper && !memory_analysed {
        FencePath::Exchange
    } else {
        FencePath::Direct
    }
}

/// Issues the barrier as a single fence instruction.
pub fn full_fence() {
    atomic_fence(Ordering::SeqCst);
}

/// Issues the barrier as a compare-and-exchange on a throwaway cell.
///
/// The compiler barriers on both sides keep the exchange, whose result
/// nobody reads, from being optimised away.
pub fn exchange_fence() {
    core::sync::atomic::compiler_fence(Ordering::SeqCst);
    let cell = AtomicUsize::new(0);
    let _ = cell.compare_exchange(0, 1, Ordering::SeqCst, Ordering::SeqCst);
    core::sync::atomic::compiler_fence(Ordering::SeqCst);
}

/// Issues the barrier by the given path.
pub fn fence_on(path: FencePath) {
    match path {
        FencePath::Exchange => exchange_fence(),
        FencePath::Direct => full_fence(),
    }
}

} // verus!
