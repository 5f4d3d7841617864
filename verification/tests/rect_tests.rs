use rsvg_filters::rect::IRect;

#[test]
fn intersect_keeps_shared_pixels() {
    let a = IRect::new(0, 0, 10, 10);
    let b = IRect::new(5, -3, 20, 7);
    assert_eq!(a.intersect(&b), IRect::new(5, 0, 10, 7));
    assert_eq!(b.intersect(&a), IRect::new(5, 0, 10, 7));
}

#[test]
fn intersect_of_disjoint_rectangles_is_empty() {
    let a = IRect::new(0, 0, 4, 4);
    let b = IRect::new(6, 6, 9, 9);
    assert!(a.intersect(&b).is_empty());
}

#[test]
fn union_is_the_bounding_rectangle() {
    let a = IRect::new(0, 0, 4, 4);
    let b = IRect::new(6, -2, 9, 3);
    assert_eq!(a.union(&b), IRect::new(0, -2, 9, 4));
}

#[test]
fn union_with_an_empty_rectangle_is_the_other() {
    let a = IRect::new(1, 2, 3, 4);
    let empty = IRect::new(100, 100, 100, 200);
    assert_eq!(a.union(&empty), a);
    assert_eq!(empty.union(&a), a);
}

#[test]
fn contains_is_half_open() {
    let r = IRect::new(1, 1, 3, 3);
    assert!(r.covers(1, 1));
    assert!(r.covers(2, 2));
    assert!(!r.covers(3, 2));
    assert!(!r.covers(2, 3));
    assert!(!r.covers(0, 1));
    assert!(r.covers(2, 1));
    assert!(!r.covers(3, 3));
    assert!(!IRect::new(-5, -5, 0, 0).covers(0, 0));
}
