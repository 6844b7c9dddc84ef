use yaag::sync::{Gn, Once};

fn once<T>(t: T) -> Gn<Once<T>> {
    Gn::new(Once::new(t))
}

#[test]
fn once_works_i32() {
    let mut once = once(42);
    assert_eq!(once.collect_all(), vec![42]);
}

#[test]
fn once_works_box() {
    let mut once = once(Box::new(42));
    assert_eq!(once.collect_all(), vec![Box::new(42)]);
}
