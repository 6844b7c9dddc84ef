//! The suspension operation behind a lowered `await`: a wrapper that polls
//! genuinely asynchronous inner work with the real notification handle of the
//! current resume call, so external wake-ups keep propagating while the
//! generator itself reports "not yet ready".

use crate::slot::ResumeCapability;
use crate::Poll;
use vstd::prelude::*;

verus! {

/// Asynchronous inner work that a generator body may await. Readiness is
/// decided by the outside world, so in general nothing is promised of the
/// outcome and a frame that polls one must cope with every answer; each kind
/// of work states in `outcome_ok` what little — or much — one poll of it does
/// promise.
pub trait Pollable: Sized {
    type Output;

    /// What one poll promises: how the result and the state afterwards
    /// relate to the state before. Work whose readiness is entirely the
    /// outside world's promises nothing here.
    spec fn outcome_ok(&self, post: Self, r: Poll<Self::Output>) -> bool;

    fn poll(&mut self, notifier: &crate::slot::Notifier) -> (r: Poll<Self::Output>)
        ensures
            old(self).outcome_ok(*final(self), r),
    ;
}

/// A lowered `await E`. It holds the inner work `E` and, when polled during a
/// resume call, hands that work the capability's real notification handle.
/// The inner work is only ever shown the notifier, never the slot, so an
/// await in flight cannot touch the yielded-item channel.
pub struct Await<F> {
    inner: F,
}

impl<F> View for Await<F> {
    type V = F;

    closed spec fn view(&self) -> F {
        self.inner
    }
}

impl<F: Pollable> Await<F> {
    /// Wrap inner awaited work.
    pub fn new(inner: F) -> (a: Await<F>)
        ensures
            a@ == inner,
    {
        Await { inner }
    }

    /// Poll the inner work with the real notification handle of the current
    /// resume call. The capability is only read: the slot stays exactly as it
    /// was, whatever the inner work does. The result keeps whatever the inner
    /// work promises of one poll.
    pub fn poll<O>(&mut self, cap: &ResumeCapability<O>) -> (r: Poll<F::Output>)
        requires
            cap.is_async_mode(),
        ensures
            old(self)@.outcome_ok(final(self)@, r),
    {
        self.inner.poll(cap.notifier())
    }
}

} // verus!
