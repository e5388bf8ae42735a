use ag_iso_terminal_designer::{Object, ObjectPool, ObjectType, NULL_OBJECT_ID};

fn object(id: u16, t: ObjectType, refs: Vec<u16>) -> Object {
    let mut o = Object::new(id, t);
    o.references = refs;
    o
}

#[test]
fn pool_without_working_set_has_no_root() {
    let mut pool = ObjectPool::new();
    assert!(pool.add(Object::new(5, ObjectType::DataMask)));
    assert!(pool.working_set_object().is_none());
    assert_eq!(pool.objects_by_type(ObjectType::DataMask), vec![5]);
}

#[test]
fn working_set_is_found() {
    let mut pool = ObjectPool::new();
    assert!(pool.add(Object::new(5, ObjectType::DataMask)));
    assert!(pool.add(Object::new(0, ObjectType::WorkingSet)));
    assert_eq!(pool.working_set_object().map(|o| o.id), Some(0));
}

#[test]
fn add_refuses_taken_and_null_numbers() {
    let mut pool = ObjectPool::new();
    assert!(pool.add(Object::new(1, ObjectType::Key)));
    assert!(!pool.add(Object::new(1, ObjectType::Button)));
    assert!(!pool.add(Object::new(NULL_OBJECT_ID, ObjectType::Button)));
    assert_eq!(pool.len(), 1);
    assert_eq!(pool.object_by_id(1).map(|o| o.object_type), Some(ObjectType::Key));
}

#[test]
fn remove_leaves_references_dangling() {
    let mut pool = ObjectPool::new();
    assert!(pool.add(object(1, ObjectType::DataMask, vec![2, 3])));
    assert!(pool.add(object(2, ObjectType::Container, vec![3])));
    assert!(pool.add(Object::new(3, ObjectType::OutputString)));
    let removed = pool.remove(3).unwrap();
    assert_eq!(removed.id, 3);
    assert!(pool.object_by_id(3).is_none());
    assert_eq!(pool.object_by_id(1).unwrap().referenced_objects(), &vec![2, 3]);
    assert_eq!(pool.parent_objects(3), vec![1, 2]);
    assert!(pool.remove(3).is_none());
}

#[test]
fn queries_by_type_and_parent() {
    let mut pool = ObjectPool::new();
    assert!(pool.add(object(10, ObjectType::DataMask, vec![11])));
    assert!(pool.add(object(11, ObjectType::Container, vec![12])));
    assert!(pool.add(Object::new(12, ObjectType::Button)));
    assert!(pool.add(object(13, ObjectType::DataMask, vec![12])));
    assert_eq!(pool.objects_by_type(ObjectType::DataMask), vec![10, 13]);
    assert_eq!(pool.count_of_type(ObjectType::Button), 1);
    assert_eq!(pool.parent_objects(12), vec![11, 13]);
    assert_eq!(pool.parent_objects(10), Vec::<u16>::new());
    assert_eq!(pool.max_id(), 13);
    assert_eq!(ObjectPool::new().max_id(), 0);
}

#[test]
fn renumbering_checks_conflicts() {
    let mut pool = ObjectPool::new();
    assert!(pool.add(Object::new(1, ObjectType::Key)));
    assert!(pool.add(Object::new(2, ObjectType::Key)));
    assert!(!pool.set_object_id(1, 2));
    assert!(!pool.set_object_id(1, NULL_OBJECT_ID));
    assert!(!pool.set_object_id(9, 3));
    assert!(pool.set_object_id(1, 3));
    assert_eq!(pool.object_at(0).id, 3);
    assert!(pool.set_object_id(3, 3));
}

#[test]
fn snapshots_compare_equal() {
    let mut pool = ObjectPool::new();
    assert!(pool.add(object(1, ObjectType::DataMask, vec![2])));
    let copy = pool.snapshot();
    assert!(copy.same_as(&pool));
    let mut other = pool.snapshot();
    assert!(other.set_object_id(1, 4));
    assert!(!other.same_as(&pool));
    let mut shuffled = ObjectPool::new();
    assert!(shuffled.add(object(1, ObjectType::DataMask, vec![3])));
    assert!(!shuffled.same_as(&pool));
}

#[test]
fn sorting_by_number_and_kind() {
    let mut pool = ObjectPool::new();
    assert!(pool.add(Object::new(9, ObjectType::Key)));
    assert!(pool.add(Object::new(3, ObjectType::DataMask)));
    assert!(pool.add(Object::new(7, ObjectType::Key)));
    assert!(pool.add(Object::new(1, ObjectType::WorkingSet)));
    pool.sort_objects(true);
    let ids: Vec<u16> = (0..pool.len()).map(|i| pool.object_at(i).id).collect();
    assert_eq!(ids, vec![1, 3, 9, 7]);
    pool.sort_objects(false);
    let ids: Vec<u16> = (0..pool.len()).map(|i| pool.object_at(i).id).collect();
    assert_eq!(ids, vec![1, 3, 7, 9]);
    assert_eq!(ObjectType::ScaledGraphic.code(), 48);
    assert_eq!(ObjectType::Key.code(), 5);
}

#[test]
fn reachability_is_bounded_and_survives_cycles() {
    let mut pool = ObjectPool::new();
    assert!(pool.add(object(0, ObjectType::WorkingSet, vec![1])));
    assert!(pool.add(object(1, ObjectType::DataMask, vec![2, 40])));
    assert!(pool.add(object(2, ObjectType::Container, vec![1, 3])));
    assert!(pool.add(Object::new(3, ObjectType::OutputString)));
    assert!(pool.reaches_within(0, 3, 3));
    assert!(!pool.reaches_within(0, 3, 2));
    assert!(pool.reaches_within(2, 2, 0));
    assert!(!pool.reaches_within(3, 0, 10));
    assert!(!pool.reaches_within(0, 40, 0));
    assert!(pool.reaches_within(0, 40, 2));
    assert!(!pool.reaches_within(0, 99, 50));
}
