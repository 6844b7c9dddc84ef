//! The poll-based consumption protocol: an asynchronous generator is a frame
//! driven by `Gn`, whose `gn_poll_next` has a three-way outcome — an item was
//! yielded, an inner await is still pending, or the frame completed.

use crate::awt::{Await, Pollable};
use crate::slot::{Notifier, ResumeCapability};
use crate::sync::range_seq;
use crate::yld::Yield;
use crate::{Poll, State};
use vstd::prelude::*;

verus! {

/// A suspendable asynchronous computation. Like a synchronous frame it
/// yields its pending items in order through the slot, but a resume call may
/// also return with the slot untouched because genuinely asynchronous inner
/// work is not ready yet; no item is lost or reordered by such a call.
pub trait AsyncFrame: Sized {
    type Item;

    /// The items this frame will still yield, in source order.
    spec fn pending(&self) -> Seq<Self::Item>;

    fn resume(&mut self, cap: &mut ResumeCapability<Self::Item>) -> (done: bool)
        requires
            old(cap).slot_view() is None,
            old(cap).is_async_mode(),
        ensures
            final(cap).is_async_mode(),
            done ==> old(self).pending().len() == 0 && final(self).pending().len() == 0
                && final(cap).slot_view() is None,
            !done && final(cap).slot_view() is Some ==> old(self).pending().len() > 0
                && final(cap).slot_view() == Some(old(self).pending()[0])
                && final(self).pending() == old(self).pending().drop_first(),
            !done && final(cap).slot_view() is None ==> final(self).pending() == old(self).pending(),
    ;
}

/// An asynchronous generator: a frame together with its driver-visible
/// lifecycle state.
pub struct Gn<F: AsyncFrame> {
    frame: F,
    state: State,
}

impl<F: AsyncFrame> Gn<F> {
    /// The items still to be yielded, in order.
    pub closed spec fn remaining(&self) -> Seq<F::Item> {
        self.frame.pending()
    }

    /// Where the generator stands in the lifecycle of its frame.
    pub closed spec fn lifecycle(&self) -> State {
        self.state
    }

    /// Completion has been reported; the caller must stop polling.
    pub open spec fn exhausted(&self) -> bool {
        self.lifecycle() is Completed
    }

    /// Wrap a frame into a generator that has not yet been started.
    pub fn new(frame: F) -> (g: Gn<F>)
        ensures
            g.remaining() == frame.pending(),
            g.lifecycle() is NotStarted,
    {
        Gn { frame, state: State::NotStarted }
    }

    /// Drive the frame one step with the caller's real notification handle.
    /// Three-way outcome: `Some(Ready(x))` — a yield executed and `x` is the
    /// next pending item; `Some(Pending)` — an inner await is not ready, and
    /// no item was produced or lost; `None` — the frame completed.
    pub fn gn_poll_next(&mut self, notifier: Notifier) -> (r: Option<Poll<F::Item>>)
        requires
            !old(self).exhausted(),
        ensures
            r is None ==> old(self).remaining().len() == 0,
            r is None ==> final(self).lifecycle() is Completed && final(self).remaining().len()
                == 0,
            r == Some(Poll::<F::Item>::Pending) ==> final(self).remaining() == old(self).remaining()
                && final(self).lifecycle() is AwaitSuspended,
            r matches Some(Poll::Ready(x)) ==> old(self).remaining().len() > 0 && x == old(self).remaining()[0] && final(self).remaining() == old(self).remaining().drop_first()
                && final(self).lifecycle() is YieldSuspended,
    {
        self.state = State::Running;
        let mut cap = ResumeCapability::<F::Item>::mint_async(notifier);
        let done = self.frame.resume(&mut cap);
        let item = cap.drain();
        if done {
            self.state = State::Completed;
            None
        } else {
            match item {
                Some(x) => {
                    self.state = State::YieldSuspended;
                    Some(Poll::Ready(x))
                },
                None => {
                    self.state = State::AwaitSuspended;
                    Some(Poll::Pending)
                },
            }
        }
    }

    /// The host's asynchronous-sequence protocol: `Ready(Some(x))` for a
    /// yielded item, `Pending` while inner work is awaited, `Ready(None)` on
    /// completion.
    pub fn poll_next(&mut self, notifier: Notifier) -> (r: Poll<Option<F::Item>>)
        requires
            !old(self).exhausted(),
        ensures
            r == Poll::<Option<F::Item>>::Ready(Option::<F::Item>::None) ==> old(self).remaining().len() == 0,
            r == Poll::<Option<F::Item>>::Ready(Option::<F::Item>::None) ==> final(self).lifecycle() is Completed,
            r == Poll::<Option<F::Item>>::Pending ==> final(self).remaining() == old(self).remaining() && final(self).lifecycle() is AwaitSuspended,
            r matches Poll::Ready(Some(x)) ==> old(self).remaining().len() > 0 && x == old(self).remaining()[0] && final(self).remaining() == old(self).remaining().drop_first()
                && final(self).lifecycle() is YieldSuspended,
    {
        transpose(self.gn_poll_next(notifier))
    }
}

/// Rearrange the engine's three-way outcome into the host protocol's shape.
pub fn transpose<T>(value: Option<Poll<T>>) -> (r: Poll<Option<T>>)
    ensures
        value == Some(Poll::<T>::Pending) ==> r == Poll::<Option<T>>::Pending,
        value matches Some(Poll::Ready(x)) ==> r == Poll::<Option<T>>::Ready(Some(x)),
        value is None ==> r == Poll::<Option<T>>::Ready(Option::<T>::None),
{
    match value {
        Some(Poll::Pending) => Poll::Pending,
        Some(Poll::Ready(item)) => Poll::Ready(Some(item)),
        None => Poll::Ready(None),
    }
}

/// A model of genuinely asynchronous inner work: it is ready only after a
/// fixed number of polls, standing in for a delay whose wake-ups the real
/// scheduler would deliver through the notifier.
pub struct Delay {
    ticks: u64,
}

impl Delay {
    pub fn new(ticks: u64) -> (d: Delay)
        ensures
            d.ticks_left() == ticks,
    {
        Delay { ticks }
    }

    /// Polls still needed before this work is ready.
    pub closed spec fn ticks_left(&self) -> u64 {
        self.ticks
    }
}

impl Pollable for Delay {
    type Output = ();

    open spec fn outcome_ok(&self, post: Delay, r: Poll<()>) -> bool {
        if self.ticks_left() == 0 {
            r is Ready && post.ticks_left() == 0
        } else {
            r is Pending && post.ticks_left() == self.ticks_left() - 1
        }
    }

    fn poll(&mut self, notifier: &Notifier) -> (r: Poll<()>)
        ensures
            old(self).ticks_left() == 0 ==> r is Ready && final(self).ticks_left() == 0,
            old(self).ticks_left() > 0 ==> r is Pending && final(self).ticks_left() == old(
                self,
            ).ticks_left() - 1,
    {
        if self.ticks == 0 {
            Poll::Ready(())
        } else {
            self.ticks = self.ticks - 1;
            Poll::Pending
        }
    }
}

/// The frame of a body that awaits a delay before each yield of
/// `next..=end`: it reports "not ready" while the delay is in flight and
/// yields the next value only once the wait has resolved.
pub struct DelayedRange {
    next: i32,
    end: i32,
    finished: bool,
    ticks: u64,
    wait: Await<Delay>,
}

impl DelayedRange {
    pub fn new(start: i32, end: i32, ticks: u64) -> (f: DelayedRange)
        ensures
            f.pending() == range_seq(start as int, end as int),
            f.wait_ticks() == ticks,
    {
        DelayedRange { next: start, end, finished: false, ticks, wait: Await::new(Delay::new(ticks)) }
    }

    /// Polls still needed before the wait in front of the next yield
    /// resolves.
    pub closed spec fn wait_ticks(&self) -> u64 {
        self.wait@.ticks_left()
    }
}

impl AsyncFrame for DelayedRange {
    type Item = i32;

    closed spec fn pending(&self) -> Seq<i32> {
        if self.finished {
            Seq::empty()
        } else {
            range_seq(self.next as int, self.end as int)
        }
    }

    fn resume(&mut self, cap: &mut ResumeCapability<i32>) -> (done: bool)
        ensures
            old(self).pending().len() == 0 ==> done,
            old(self).pending().len() > 0 && old(self).wait_ticks() > 0 ==> !done
                && final(cap).slot_view() is None && final(self).wait_ticks() == old(
                self,
            ).wait_ticks() - 1,
            old(self).pending().len() > 0 && old(self).wait_ticks() == 0 ==> !done
                && final(cap).slot_view() == Some(old(self).pending()[0]),
    {
        if self.finished || self.next > self.end {
            self.finished = true;
            true
        } else {
            match self.wait.poll(cap) {
                Poll::Pending => false,
                Poll::Ready(()) => {
                    let item = self.next;
                    if self.next == self.end {
                        self.finished = true;
                    } else {
                        self.next = self.next + 1;
                    }
                    self.wait = Await::new(Delay::new(self.ticks));
                    proof {
                        assert(range_seq(item as int, old(self).end as int).drop_first()
                            =~= range_seq(item as int + 1, old(self).end as int));
                    }
                    let mut y = Yield::new(item);
                    let _ = y.poll(cap);
                    false
                },
            }
        }
    }
}

} // verus!
