use vstd::prelude::Seq;
use yaag::sync::{from_fn, FromFn, Gn, PullSource};

struct FnSource<F>(F);

impl<T, F: FnMut() -> Option<T>> PullSource for FnSource<F> {
    type Item = T;

    // Ghost-only trait item: never called at runtime.
    fn future_items(&self) -> Seq<T> {
        unreachable!()
    }

    fn pull(&mut self) -> Option<T> {
        (self.0)()
    }
}

fn from_closure<T, F: FnMut() -> Option<T>>(f: F) -> Gn<FromFn<FnSource<F>>> {
    from_fn(FnSource(f))
}

#[test]
fn from_fn_works() {
    let mut c = 0;
    let mut gn = from_closure(|| {
        if c < 10 {
            c += 1;
            Some(c)
        } else {
            None
        }
    });
    assert_eq!(gn.collect_all(), (1..=10).collect::<Vec<_>>());
}

#[test]
fn iter_from_fn_works() {
    let mut c = 0;
    let mut gn = from_closure(|| {
        if c < 10 {
            c += 1;
            Some(c)
        } else {
            None
        }
    });
    assert_eq!(gn.collect_all(), (1..=10).collect::<Vec<_>>());
}
