use brep_kernel::objects::curve::GlobalCurve;
use brep_kernel::objects::vertex::GlobalVertex;
use brep_kernel::objects::Objects;
use brep_kernel::storage::{Handle, Store};
use fj_math::Point;

#[test]
fn insert_issues_handles_in_order() {
    let mut store: Store<GlobalVertex> = Store::new();
    assert_eq!(store.len(), 0);
    let a = store.insert(GlobalVertex::from_position(Point::from([1., 2., 3.])));
    let b = store.insert(GlobalVertex::from_position(Point::from([1., 2., 3.])));
    assert_eq!(a.id, 0);
    assert_eq!(b.id, 1);
    assert_ne!(a, b);
    assert_eq!(a.object, b.object);
    assert_eq!(store.len(), 2);
}

#[test]
fn get_finds_what_was_inserted() {
    let mut store: Store<GlobalVertex> = Store::new();
    let a = store.insert(GlobalVertex::from_position(Point::from([1., 2., 3.])));
    assert_eq!(store.get(0), Some(a));
    assert_eq!(store.get(1), None);
}

#[test]
fn global_curves_differ_by_identity_alone() {
    let mut objects = Objects::new();
    let a = objects.global_curves.insert(GlobalCurve {});
    let b = objects.global_curves.insert(GlobalCurve {});
    assert_eq!(a.object, b.object);
    assert_ne!(a, b);
    assert_eq!(a, Handle { id: 0, object: GlobalCurve {} });
}

#[test]
fn handles_can_be_hashed() {
    let mut store: Store<GlobalVertex> = Store::new();
    let a = store.insert(GlobalVertex::from_position(Point::from([1., 2., 3.])));
    let b = store.insert(GlobalVertex::from_position(Point::from([1., 2., 3.])));
    let mut seen = std::collections::HashSet::new();
    assert!(seen.insert(a));
    assert!(seen.insert(b));
    assert!(!seen.insert(a));
    assert_eq!(seen.len(), 2);
}
