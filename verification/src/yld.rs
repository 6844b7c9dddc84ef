//! The suspension operation behind a lowered `yield`: a one-shot step that
//! deposits its payload into the slot of the current resume call and
//! suspends, then completes on the following resume.

use crate::slot::ResumeCapability;
use crate::Poll;
use vstd::prelude::*;

verus! {

/// A pending `yield`. Freshly made it carries the yielded payload; its first
/// poll performs the handshake (deposit, then suspend), after which it is
/// spent and polls to completion.
pub struct Yield<O> {
    item: Option<O>,
}

impl<O> View for Yield<O> {
    type V = Option<O>;

    closed spec fn view(&self) -> Option<O> {
        self.item
    }
}

impl<O> Yield<O> {
    /// A yield operation about to deliver `o`.
    pub fn new(o: O) -> (y: Yield<O>)
        ensures
            y@ == Some(o),
    {
        Yield { item: Some(o) }
    }

    /// Drive the yield one step. While the payload is still held, the slot
    /// must be empty: the deposit is the single-use handshake, and the result
    /// is `Pending` (the frame suspends). A spent yield completes at once
    /// without touching the slot.
    pub fn poll(&mut self, cap: &mut ResumeCapability<O>) -> (r: Poll<()>)
        requires
            old(self)@ is Some ==> old(cap).slot_view() is None,
        ensures
            old(self)@ is Some ==> r is Pending && final(cap).slot_view() == old(self)@
                && final(cap).is_async_mode() == old(cap).is_async_mode(),
            old(self)@ is None ==> r is Ready && *final(cap) == *old(cap),
            final(self)@ is None,
    {
        match self.item.take() {
            Some(o) => {
                cap.deposit(o);
                Poll::Pending
            },
            None => Poll::Ready(()),
        }
    }
}

} // verus!
