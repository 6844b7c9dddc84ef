//! The pull-based consumption protocol: a synchronous generator is a frame
//! driven by `Gn`, whose `gn_next` runs the frame to its next yield or to
//! completion and hands the yielded item out of the slot.

use crate::slot::ResumeCapability;
use crate::yld::Yield;
use crate::State;
use vstd::prelude::*;

verus! {

/// A suspendable synchronous computation: the lowered generator body plus its
/// captured environment, written as an explicit resume-step state machine.
///
/// `pending` is the frame's abstract state: the items it will still yield, in
/// the order their yields execute. One resume call either deposits exactly
/// the next pending item into the slot and suspends (`done == false`), or —
/// only once nothing is pending — runs to the end and leaves the slot empty
/// (`done == true`). A synchronous frame never suspends for any other reason.
pub trait Frame: Sized {
    type Item;

    /// The items this frame will still yield, in source order.
    spec fn pending(&self) -> Seq<Self::Item>;

    fn resume(&mut self, cap: &mut ResumeCapability<Self::Item>) -> (done: bool)
        requires
            old(cap).slot_view() is None,
        ensures
            final(cap).is_async_mode() == old(cap).is_async_mode(),
            done ==> old(self).pending().len() == 0 && final(self).pending().len() == 0
                && final(cap).slot_view() is None,
            !done ==> old(self).pending().len() > 0
                && final(cap).slot_view() == Some(old(self).pending()[0])
                && final(self).pending() == old(self).pending().drop_first(),
    ;
}

/// A synchronous generator: a frame together with its driver-visible
/// lifecycle state.
pub struct Gn<F: Frame> {
    frame: F,
    state: State,
}

impl<F: Frame> Gn<F> {
    /// The items still to be pulled, in order.
    pub closed spec fn remaining(&self) -> Seq<F::Item> {
        self.frame.pending()
    }

    /// Where the generator stands in the lifecycle of its frame.
    pub closed spec fn lifecycle(&self) -> State {
        self.state
    }

    /// Exhaustion has been reported; the caller must stop.
    pub open spec fn exhausted(&self) -> bool {
        self.lifecycle() is Completed
    }

    /// Wrap a frame into a generator that has not yet been started.
    pub fn new(frame: F) -> (g: Gn<F>)
        ensures
            g.remaining() == frame.pending(),
            g.lifecycle() is NotStarted,
    {
        Gn { frame, state: State::NotStarted }
    }

    /// Pull the next item: drive the frame until it yields or completes.
    /// Returns the yielded item, or `None` exactly once, when the frame has
    /// run to its end. Calling again after exhaustion was reported is the
    /// caller's contract violation, and is ruled out here.
    pub fn gn_next(&mut self) -> (r: Option<F::Item>)
        requires
            !old(self).exhausted(),
        ensures
            r is None <==> old(self).remaining().len() == 0,
            r is None ==> final(self).lifecycle() is Completed && final(self).remaining().len()
                == 0,
            r is Some ==> r == Some(old(self).remaining()[0]) && final(self).remaining() == old(self).remaining().drop_first() && final(self).lifecycle() is YieldSuspended,
    {
        self.state = State::Running;
        let mut cap = ResumeCapability::<F::Item>::mint_sync();
        let done = self.frame.resume(&mut cap);
        let item = cap.drain();
        if done {
            self.state = State::Completed;
        } else {
            self.state = State::YieldSuspended;
        }
        item
    }

    /// Drain the whole generator: pull until exhaustion and return the items
    /// in the order their yields executed.
    pub fn collect_all(&mut self) -> (v: Vec<F::Item>)
        requires
            !old(self).exhausted(),
        ensures
            v@ == old(self).remaining(),
            final(self).exhausted(),
            final(self).remaining().len() == 0,
    {
        let ghost orig = self.remaining();
        let mut v: Vec<F::Item> = Vec::new();
        let mut done = false;
        while !done
            invariant
                !done ==> !self.exhausted() && v@ + self.remaining() == orig,
                done ==> self.exhausted() && self.remaining().len() == 0 && v@ == orig,
            decreases (if done {
                0int
            } else {
                self.remaining().len() + 1int
            }),
        {
            let ghost head = self.remaining();
            match self.gn_next() {
                Some(x) => {
                    proof {
                        assert(head =~= seq![x] + self.remaining());
                        assert(v@.push(x) + self.remaining() =~= v@ + head);
                    }
                    v.push(x);
                },
                None => {
                    proof {
                        assert(v@ + head =~= v@);
                    }
                    done = true;
                },
            }
        }
        v
    }
}

/// The pull-iteration surface of a synchronous generator: `next` hands out
/// the next item or signals exhaustion, exactly once, after which the caller
/// must stop.
pub trait Generator {
    type Item;

    /// The items still to be pulled, in order.
    spec fn items_left(&self) -> Seq<Self::Item>;

    /// Exhaustion has been reported.
    spec fn exhausted(&self) -> bool;

    fn next(&mut self) -> (r: Option<Self::Item>)
        requires
            !old(self).exhausted(),
        ensures
            r is None <==> old(self).items_left().len() == 0,
            r is None ==> final(self).exhausted() && final(self).items_left().len() == 0,
            r is Some ==> r == Some(old(self).items_left()[0]) && final(self).items_left() == old(self).items_left().drop_first() && !final(self).exhausted(),
    ;
}

impl<F: Frame> Generator for Gn<F> {
    type Item = F::Item;

    open spec fn items_left(&self) -> Seq<F::Item> {
        self.remaining()
    }

    open spec fn exhausted(&self) -> bool {
        self.exhausted()
    }

    fn next(&mut self) -> (r: Option<F::Item>) {
        self.gn_next()
    }
}

/// The consecutive values `lo..=hi`, in order; empty when `lo > hi`.
pub open spec fn range_seq(lo: int, hi: int) -> Seq<i32>
    decreases hi + 1 - lo,
{
    if lo > hi {
        Seq::empty()
    } else {
        seq![lo as i32] + range_seq(lo + 1, hi)
    }
}

/// A frame with an empty body: it completes on its first resume and yields
/// nothing.
pub struct Empty<O> {
    marker: core::marker::PhantomData<O>,
}

impl<O> Empty<O> {
    pub fn new() -> (f: Empty<O>)
        ensures
            f.pending().len() == 0,
    {
        Empty { marker: core::marker::PhantomData }
    }
}

impl<O> Frame for Empty<O> {
    type Item = O;

    open spec fn pending(&self) -> Seq<O> {
        Seq::empty()
    }

    fn resume(&mut self, cap: &mut ResumeCapability<O>) -> (done: bool) {
        true
    }
}

/// The frame of a body that yields a single value and ends.
pub struct Once<O> {
    item: Option<O>,
}

impl<O> Once<O> {
    pub fn new(o: O) -> (f: Once<O>)
        ensures
            f.pending() == seq![o],
    {
        Once { item: Some(o) }
    }
}

impl<O> Frame for Once<O> {
    type Item = O;

    closed spec fn pending(&self) -> Seq<O> {
        match self.item {
            Some(o) => seq![o],
            None => Seq::empty(),
        }
    }

    fn resume(&mut self, cap: &mut ResumeCapability<O>) -> (done: bool) {
        match self.item.take() {
            Some(o) => {
                let mut y = Yield::new(o);
                let _ = y.poll(cap);
                false
            },
            None => true,
        }
    }
}

/// The frame of a body that yields each value of `next..=end` in turn.
pub struct RangeFrame {
    next: i32,
    end: i32,
    finished: bool,
}

impl RangeFrame {
    pub fn new(start: i32, end: i32) -> (f: RangeFrame)
        ensures
            f.pending() == range_seq(start as int, end as int),
    {
        RangeFrame { next: start, end, finished: false }
    }
}

impl Frame for RangeFrame {
    type Item = i32;

    closed spec fn pending(&self) -> Seq<i32> {
        if self.finished {
            Seq::empty()
        } else {
            range_seq(self.next as int, self.end as int)
        }
    }

    fn resume(&mut self, cap: &mut ResumeCapability<i32>) -> (done: bool) {
        if self.finished || self.next > self.end {
            self.finished = true;
            true
        } else {
            let item = self.next;
            if self.next == self.end {
                self.finished = true;
            } else {
                self.next = self.next + 1;
            }
            proof {
                assert(range_seq(item as int, old(self).end as int).drop_first() =~= range_seq(
                    item as int + 1,
                    old(self).end as int,
                ));
            }
            let mut y = Yield::new(item);
            let _ = y.poll(cap);
            false
        }
    }
}

/// A source of items pulled one at a time, as a generator body would pull
/// from a captured callable: `pull` hands out the first of its future items
/// or `None` once none are left.
pub trait PullSource: Sized {
    type Item;

    /// The items this source will still produce, in order.
    spec fn future_items(&self) -> Seq<Self::Item>;

    fn pull(&mut self) -> (r: Option<Self::Item>)
        ensures
            old(self).future_items().len() == 0 ==> r is None && final(self).future_items().len()
                == 0,
            old(self).future_items().len() > 0 ==> r == Some(old(self).future_items()[0]) && final(self).future_items() == old(self).future_items().drop_first(),
    ;
}

/// The frame of a body that repeatedly pulls from a source and yields each
/// item until the source is spent.
pub struct FromFn<S: PullSource> {
    source: S,
}

impl<S: PullSource> Frame for FromFn<S> {
    type Item = S::Item;

    closed spec fn pending(&self) -> Seq<S::Item> {
        self.source.future_items()
    }

    fn resume(&mut self, cap: &mut ResumeCapability<S::Item>) -> (done: bool) {
        match self.source.pull() {
            Some(o) => {
                let mut y = Yield::new(o);
                let _ = y.poll(cap);
                false
            },
            None => true,
        }
    }
}

/// A generator over everything a source will produce.
pub fn from_fn<S: PullSource>(source: S) -> (g: Gn<FromFn<S>>)
    ensures
        g.remaining() == source.future_items(),
        !g.exhausted(),
{
    Gn::new(FromFn { source })
}

/// A counting source: produces `count + 1 ..= limit`, one value per pull.
pub struct CounterSource {
    count: i32,
    limit: i32,
}

impl CounterSource {
    pub fn new(count: i32, limit: i32) -> (s: CounterSource)
        ensures
            s.future_items() == range_seq(count as int + 1, limit as int),
    {
        CounterSource { count, limit }
    }
}

impl PullSource for CounterSource {
    type Item = i32;

    closed spec fn future_items(&self) -> Seq<i32> {
        range_seq(self.count as int + 1, self.limit as int)
    }

    fn pull(&mut self) -> (r: Option<i32>) {
        if self.count < self.limit {
            self.count = self.count + 1;
            proof {
                assert(range_seq(old(self).count as int + 1, self.limit as int).drop_first()
                    =~= range_seq(self.count as int + 1, self.limit as int));
            }
            Some(self.count)
        } else {
            None
        }
    }
}

} // verus!
