//! The out-of-band handshake channel between a suspended frame and its
//! driver: a single-value `Slot`, and the call-scoped `ResumeCapability`
//! through which suspension code reaches it.

use vstd::pervasive::unreached;
use vstd::prelude::*;

verus! {

/// A single-value, single-use transfer point. It never holds more than one
/// un-consumed item: writing requires it to be empty, and the driver drains
/// it right after the resume call that filled it returns.
pub struct Slot<O> {
    item: Option<O>,
}

impl<O> View for Slot<O> {
    type V = Option<O>;

    closed spec fn view(&self) -> Option<O> {
        self.item
    }
}

impl<O> Slot<O> {
    /// An empty slot, as minted before every resume call.
    pub fn empty() -> (s: Slot<O>)
        ensures
            s@ is None,
    {
        Slot { item: None }
    }

    /// Deposit one item. The single-writer handshake: only legal while the
    /// slot is empty, which is always the case when reached through a yield.
    pub fn write(&mut self, o: O)
        requires
            old(self)@ is None,
        ensures
            final(self)@ == Some(o),
    {
        self.item = Some(o);
    }

    /// Drain the slot, leaving it empty.
    pub fn take(&mut self) -> (r: Option<O>)
        ensures
            r == old(self)@,
            final(self)@ is None,
    {
        self.item.take()
    }
}

/// The external notification handle of async mode: stands for the host
/// scheduler's real wake-up channel, which inner awaited work is polled with.
#[derive(Clone, Copy)]
pub struct Notifier {}

/// The opaque, call-scoped token handed into a frame at each resume. It
/// carries the slot (sync), or the slot plus the real notification handle
/// (async), and is valid only for the duration of that one call: the driver
/// mints it fresh, lends it to the frame, and drains it afterwards.
pub enum ResumeCapability<O> {
    Sync { slot: Slot<O> },
    Async { slot: Slot<O>, notifier: Notifier },
}

impl<O> ResumeCapability<O> {
    /// What the capability's slot currently holds.
    pub open spec fn slot_view(&self) -> Option<O> {
        match self {
            ResumeCapability::Sync { slot } => slot@,
            ResumeCapability::Async { slot, .. } => slot@,
        }
    }

    /// Whether this capability carries the real notification handle.
    pub open spec fn is_async_mode(&self) -> bool {
        self is Async
    }

    /// Mint a fresh synchronous capability with an empty slot.
    pub fn mint_sync() -> (c: ResumeCapability<O>)
        ensures
            c.slot_view() is None,
            !c.is_async_mode(),
    {
        ResumeCapability::Sync { slot: Slot::empty() }
    }

    /// Mint a fresh asynchronous capability with an empty slot and the
    /// caller's notification handle.
    pub fn mint_async(notifier: Notifier) -> (c: ResumeCapability<O>)
        ensures
            c.slot_view() is None,
            c.is_async_mode(),
    {
        ResumeCapability::Async { slot: Slot::empty(), notifier }
    }

    /// Deposit a yielded item through the capability. This is the one write
    /// path into the slot, and it demands that the slot be empty.
    pub fn deposit(&mut self, o: O)
        requires
            old(self).slot_view() is None,
        ensures
            final(self).slot_view() == Some(o),
            final(self).is_async_mode() == old(self).is_async_mode(),
    {
        match self {
            ResumeCapability::Sync { slot } => slot.write(o),
            ResumeCapability::Async { slot, .. } => slot.write(o),
        }
    }

    /// The real notification handle carried by an asynchronous capability,
    /// through which inner awaited work is polled.
    pub fn notifier(&self) -> (n: &Notifier)
        requires
            self.is_async_mode(),
    {
        match self {
            ResumeCapability::Async { notifier, .. } => notifier,
            ResumeCapability::Sync { .. } => unreached(),
        }
    }

    /// Drain the slot after the resume call has returned.
    pub fn drain(&mut self) -> (r: Option<O>)
        ensures
            r == old(self).slot_view(),
            final(self).slot_view() is None,
            final(self).is_async_mode() == old(self).is_async_mode(),
    {
        match self {
            ResumeCapability::Sync { slot } => slot.take(),
            ResumeCapability::Async { slot, .. } => slot.take(),
        }
    }
}

} // verus!
