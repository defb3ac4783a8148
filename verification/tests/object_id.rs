use sphere_plot::object_id::MAX_OBJECTS;
use sphere_plot::ObjectId;

#[test]
fn new_accepts_ids_below_the_bound() {
    assert_eq!(ObjectId::new(0).map(|o| o.id()), Some(0));
    assert_eq!(ObjectId::new(17).map(|o| o.id()), Some(17));
    assert_eq!(ObjectId::new(4095).map(|o| o.id()), Some(4095));
    assert_eq!(MAX_OBJECTS, 4096);
}

#[test]
fn new_refuses_ids_at_or_above_the_bound() {
    assert_eq!(ObjectId::new(4096), None);
    assert_eq!(ObjectId::new(10_000), None);
    assert_eq!(ObjectId::new(usize::MAX), None);
}

#[test]
fn force_agrees_with_new() {
    for id in [0usize, 1, 99, 4095] {
        assert_eq!(Some(ObjectId::force(id)), ObjectId::new(id));
        assert_eq!(ObjectId::force(id).id(), id);
    }
}

#[test]
fn deref_gives_the_number() {
    let o = ObjectId::force(321);
    assert_eq!(*o, 321);
}

#[test]
fn default_and_order_follow_the_number() {
    assert_eq!(ObjectId::default().id(), 0);
    assert!(ObjectId::force(3) < ObjectId::force(12));
    assert_ne!(ObjectId::force(3), ObjectId::force(12));
}
