use yaag::not_sync::{transpose, Delay, DelayedRange, Gn as AsyncGn};
use yaag::slot::{Notifier, ResumeCapability, Slot};
use yaag::sync::{from_fn, CounterSource, Generator, Gn, Once, RangeFrame};
use yaag::yld::Yield;
use yaag::Poll;

#[test]
fn slot_handshake_holds_exactly_one_item() {
    let mut slot: Slot<i32> = Slot::empty();
    slot.write(7);
    assert_eq!(slot.take(), Some(7));
    assert_eq!(slot.take(), None);
}

#[test]
fn yield_deposits_then_completes() {
    let mut cap: ResumeCapability<i32> = ResumeCapability::mint_sync();
    let mut y = Yield::new(5);
    assert!(matches!(y.poll(&mut cap), Poll::Pending));
    assert_eq!(cap.drain(), Some(5));
    assert!(matches!(y.poll(&mut cap), Poll::Ready(())));
    assert_eq!(cap.drain(), None);
}

#[test]
fn pull_protocol_reports_exhaustion_once() {
    let mut gn = Gn::new(Once::new(3));
    assert_eq!(gn.gn_next(), Some(3));
    assert_eq!(gn.gn_next(), None);
}

#[test]
fn generator_trait_pulls_in_order() {
    let mut gn = Gn::new(RangeFrame::new(4, 6));
    assert_eq!(Generator::next(&mut gn), Some(4));
    assert_eq!(Generator::next(&mut gn), Some(5));
    assert_eq!(Generator::next(&mut gn), Some(6));
    assert_eq!(Generator::next(&mut gn), None);
}

#[test]
fn counter_source_drains_like_hand_written_iterator() {
    let mut gn = from_fn(CounterSource::new(0, 10));
    assert_eq!(gn.collect_all(), (1..=10).collect::<Vec<_>>());
}

#[test]
fn transpose_maps_all_three_outcomes() {
    assert!(matches!(transpose(Some(Poll::Ready(9))), Poll::Ready(Some(9))));
    assert!(matches!(transpose::<i32>(Some(Poll::Pending)), Poll::Pending));
    assert!(matches!(transpose::<i32>(None), Poll::Ready(None)));
}

#[test]
fn delay_is_ready_only_after_its_ticks() {
    let mut d = Delay::new(2);
    let n = Notifier {};
    assert!(matches!(
        yaag::awt::Pollable::poll(&mut d, &n),
        Poll::Pending
    ));
    assert!(matches!(
        yaag::awt::Pollable::poll(&mut d, &n),
        Poll::Pending
    ));
    assert!(matches!(
        yaag::awt::Pollable::poll(&mut d, &n),
        Poll::Ready(())
    ));
}

#[test]
fn async_generator_reports_not_ready_then_item_never_early() {
    let mut gn = AsyncGn::new(DelayedRange::new(1, 2, 2));
    // Each item is preceded by exactly two not-ready polls while its delay
    // is in flight.
    assert!(matches!(gn.gn_poll_next(Notifier {}), Some(Poll::Pending)));
    assert!(matches!(gn.gn_poll_next(Notifier {}), Some(Poll::Pending)));
    assert!(matches!(gn.gn_poll_next(Notifier {}), Some(Poll::Ready(1))));
    assert!(matches!(gn.gn_poll_next(Notifier {}), Some(Poll::Pending)));
    assert!(matches!(gn.gn_poll_next(Notifier {}), Some(Poll::Pending)));
    assert!(matches!(gn.gn_poll_next(Notifier {}), Some(Poll::Ready(2))));
    assert!(matches!(gn.gn_poll_next(Notifier {}), None));
}

#[test]
fn async_generator_with_nothing_pending_completes() {
    let mut gn = AsyncGn::new(DelayedRange::new(1, 0, 5));
    assert!(matches!(gn.poll_next(Notifier {}), Poll::Ready(None)));
}

#[test]
fn async_stream_protocol_shape() {
    let mut gn = AsyncGn::new(DelayedRange::new(7, 7, 1));
    assert!(matches!(gn.poll_next(Notifier {}), Poll::Pending));
    assert!(matches!(gn.poll_next(Notifier {}), Poll::Ready(Some(7))));
    assert!(matches!(gn.poll_next(Notifier {}), Poll::Ready(None)));
}
