use vstd::prelude::Seq;
use yaag::slot::ResumeCapability;
use yaag::sync::{Empty, Frame, Gn, Once, RangeFrame};
use yaag::yld::Yield;

#[test]
fn empty() {
    let mut gn = Gn::new(Empty::<i32>::new());
    assert_eq!(gn.collect_all(), Vec::<i32>::new());
}

#[test]
fn single() {
    let mut gn = Gn::new(Once::new(42));
    assert_eq!(gn.collect_all(), vec![42]);
}

#[test]
fn generates_1_10() {
    let start = 1;
    let end = 10;
    let mut gn = Gn::new(RangeFrame::new(start, end));
    let it = 1..=10;
    assert_eq!(it.collect::<Vec<_>>(), gn.collect_all());
}

/// A frame whose body counts through a captured external counter, as
/// `while i <= 10 { yield i; i += 1; }` does over a borrowed `i`.
struct RefCounter<'a> {
    i: &'a mut i32,
}

impl<'a> Frame for RefCounter<'a> {
    type Item = i32;

    // Ghost-only trait item: never called at runtime.
    fn pending(&self) -> Seq<i32> {
        unreachable!()
    }

    fn resume(&mut self, cap: &mut ResumeCapability<i32>) -> bool {
        if *self.i <= 10 {
            let mut y = Yield::new(*self.i);
            let _ = y.poll(cap);
            *self.i += 1;
            false
        } else {
            true
        }
    }
}

#[test]
fn captures_ref() {
    let mut i = 1;
    let mut gn = Gn::new(RefCounter { i: &mut i });
    let it = 1..=10;
    assert_eq!(it.collect::<Vec<_>>(), gn.collect_all());
    assert_eq!(i, 11);
}
