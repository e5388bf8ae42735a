use ag_iso_terminal_designer::{EditorProject, Object, ObjectPool, ObjectType, SortOrder};

fn pool_of(objects: Vec<Object>) -> ObjectPool {
    let mut pool = ObjectPool::new();
    for o in objects {
        assert!(pool.add(o));
    }
    pool
}

fn project_of(objects: Vec<Object>) -> EditorProject {
    EditorProject::from_pool(pool_of(objects), 480, (60, 60))
}

fn plain_key(id: u16) -> Object {
    let mut k = Object::new(id, ObjectType::Key);
    k.key_code = 20;
    k
}

fn name_of(project: &mut EditorProject, id: u16) -> String {
    let object = project.get_pool().object_by_id(id).unwrap().duplicate();
    project.get_object_info(&object).get_name(&object)
}

#[test]
fn new_project_state() {
    let project = project_of(vec![Object::new(5, ObjectType::DataMask)]);
    assert!(!project.undo_available());
    assert!(!project.redo_available());
    assert_eq!(project.get_selected(), None);
    assert_eq!(project.mask_size(), 480);
    assert_eq!(project.soft_key_size(), (60, 60));
    assert!(project.get_pool().same_as(project.get_mut_pool()));
}

#[test]
fn second_commit_is_a_no_op() {
    let mut project = project_of(vec![Object::new(5, ObjectType::DataMask)]);
    assert!(!project.update_pool());
    assert!(project.add_object(Object::new(6, ObjectType::Key)));
    assert!(project.update_pool());
    assert!(!project.update_pool());
    assert!(project.undo_available());
    project.undo();
    assert!(!project.undo_available());
}

#[test]
fn undo_then_redo_restores_pool() {
    let mut project = project_of(vec![Object::new(5, ObjectType::DataMask)]);
    assert!(project.add_object(Object::new(6, ObjectType::Key)));
    assert!(project.update_pool());
    assert!(project.add_object(Object::new(7, ObjectType::Key)));
    assert!(project.update_pool());
    let before = project.get_pool().snapshot();
    project.undo();
    assert_eq!(project.get_pool().len(), 2);
    assert!(project.get_mut_pool().same_as(project.get_pool()));
    assert!(project.redo_available());
    project.redo();
    assert!(project.get_pool().same_as(&before));
    assert!(project.get_mut_pool().same_as(&before));
    assert!(!project.redo_available());
    project.redo();
    assert!(project.get_pool().same_as(&before));
}

#[test]
fn history_keeps_ten_pools() {
    let mut project = project_of(vec![]);
    for i in 0..15u16 {
        assert!(project.add_object(Object::new(100 + i, ObjectType::Key)));
        assert!(project.update_pool());
    }
    let mut undos = 0;
    while project.undo_available() {
        project.undo();
        undos += 1;
    }
    assert_eq!(undos, 10);
    assert_eq!(project.get_pool().len(), 5);
}

#[test]
fn redo_history_cleared_by_commit() {
    let mut project = project_of(vec![]);
    assert!(project.add_object(Object::new(1, ObjectType::Key)));
    assert!(project.update_pool());
    project.undo();
    assert!(project.redo_available());
    assert!(project.add_object(Object::new(2, ObjectType::Key)));
    assert!(project.update_pool());
    assert!(!project.redo_available());
}

#[test]
fn allocation_skips_used_numbers() {
    let mut project = project_of(vec![
        Object::new(1, ObjectType::DataMask),
        Object::new(2, ObjectType::Key),
    ]);
    assert!(project.can_allocate_object_id());
    let a = project.allocate_object_id();
    assert_eq!(a, 3);
    assert!(project.add_object(Object::new(a, ObjectType::Key)));
    let b = project.allocate_object_id();
    assert_ne!(a, b);
    assert_eq!(b, 4);
}

#[test]
fn allocation_wraps_to_first_gap() {
    let mut project = project_of(vec![
        Object::new(1, ObjectType::DataMask),
        Object::new(65534, ObjectType::Key),
    ]);
    let a = project.allocate_object_id();
    assert_eq!(a, 2);
    let mut project = project_of(vec![Object::new(65534, ObjectType::Key)]);
    let b = project.allocate_object_id();
    assert_eq!(b, 1);
}

#[test]
fn allocation_after_undo_resynchronises() {
    let mut project = project_of(vec![Object::new(1, ObjectType::DataMask)]);
    assert!(project.add_object(Object::new(50, ObjectType::Key)));
    assert!(project.update_pool());
    let a = project.allocate_object_id();
    assert_eq!(a, 2);
    assert!(project.add_object(Object::new(a, ObjectType::Key)));
    assert!(project.update_pool());
    assert_eq!(project.allocate_object_id(), 3);
    project.undo();
    assert_eq!(project.allocate_object_id(), 51);
}

#[test]
fn renumbering_keeps_name() {
    let mut project = project_of(vec![Object::new(10, ObjectType::DataMask)]);
    let object = project.get_mut_pool().object_by_id(10).unwrap().duplicate();
    let identity = project.get_object_info(&object).get_unique_id();
    project.set_renaming_object(1, 10, "Start screen".to_string());
    project.finish_renaming_object(true);
    assert!(project.get_renaming_object().is_none());
    assert!(project.change_object_id(10, 20));
    assert!(project.update_pool());
    let renumbered = project.get_pool().object_by_id(20).unwrap().duplicate();
    let info = project.get_object_info(&renumbered);
    assert_eq!(info.get_name(&renumbered), "Start screen");
    assert_eq!(info.get_unique_id(), identity);
}

#[test]
fn renumbering_refuses_conflicts() {
    let mut project = project_of(vec![
        Object::new(10, ObjectType::DataMask),
        Object::new(11, ObjectType::Key),
    ]);
    assert!(!project.change_object_id(10, 11));
    assert!(!project.change_object_id(12, 13));
    assert!(!project.update_pool());
}

#[test]
fn renaming_can_be_cancelled() {
    let mut project = project_of(vec![Object::new(3, ObjectType::Key)]);
    let object = project.get_pool().object_by_id(3).unwrap().duplicate();
    project.get_object_info(&object);
    project.set_renaming_object(7, 3, "Other".to_string());
    let (ui, id, text) = project.get_renaming_object().unwrap();
    assert_eq!((ui, id, text.as_str()), (7, 3, "Other"));
    project.finish_renaming_object(false);
    assert_eq!(name_of(&mut project, 3), "3: Key");
    project.set_renaming_object(7, 3, String::new());
    project.finish_renaming_object(true);
    assert_eq!(name_of(&mut project, 3), "3: Key");
}

#[test]
fn two_data_masks_get_distinct_names() {
    let mut project = project_of(vec![
        Object::new(1, ObjectType::DataMask),
        Object::new(2, ObjectType::DataMask),
    ]);
    project.apply_smart_naming_to_objects(&vec![1, 2]);
    assert_eq!(name_of(&mut project, 1), "Main Screen");
    assert_eq!(name_of(&mut project, 2), "Data Screen 2");
}

#[test]
fn naming_gives_unique_names() {
    let mut k = Object::new(4, ObjectType::Key);
    k.key_code = 1;
    let mut project = project_of(vec![
        Object::new(1, ObjectType::DataMask),
        plain_key(2),
        plain_key(3),
        k,
        Object::new(5, ObjectType::OutputString),
    ]);
    project.apply_smart_naming_to_objects(&vec![1, 2, 3, 4, 5, 99]);
    let names = project.get_all_object_names();
    assert_eq!(names, vec!["Main Screen", "Key", "Key 2", "ESC Key", "Text Display"]);
    for (i, a) in names.iter().enumerate() {
        for b in &names[i + 1..] {
            assert_ne!(a, b);
        }
    }
}

#[test]
fn naming_skips_named_objects() {
    let mut project = project_of(vec![plain_key(1), plain_key(2)]);
    project.set_renaming_object(0, 1, "Key 2".to_string());
    let first = project.get_pool().object_by_id(1).unwrap().duplicate();
    project.get_object_info(&first);
    project.finish_renaming_object(true);
    project.apply_smart_naming_to_object(1);
    project.apply_smart_naming_to_object(2);
    assert_eq!(name_of(&mut project, 1), "Key 2");
    assert_eq!(name_of(&mut project, 2), "Key 3");
}

#[test]
fn name_for_new_object() {
    let mut project = project_of(vec![Object::new(1, ObjectType::DataMask)]);
    assert_eq!(project.generate_smart_name_for_new_object(ObjectType::DataMask), "Data Screen 2");
    assert_eq!(project.generate_smart_name_for_new_object(ObjectType::Key), "Key");
    project.apply_smart_naming_to_objects(&vec![1]);
    assert_eq!(project.generate_smart_name_for_new_object(ObjectType::DataMask), "Data Screen 2");
    let mut button = Object::new(9, ObjectType::Button);
    button.key_code = 0;
    assert_eq!(project.generate_contextual_name(&button).as_deref(), Some("OK"));
}

#[test]
fn selection_history() {
    let mut project = project_of(vec![
        Object::new(1, ObjectType::DataMask),
        Object::new(2, ObjectType::Key),
    ]);
    project.set_mut_selected(Some(1));
    assert!(project.update_selected());
    assert!(!project.update_selected());
    project.set_mut_selected(Some(2));
    assert!(project.update_selected());
    assert_eq!(project.get_selected(), Some(2));
    project.set_previous_selected();
    assert_eq!(project.get_selected(), Some(1));
    assert_eq!(project.get_mut_selected(), Some(1));
    project.set_next_selected();
    assert_eq!(project.get_selected(), Some(2));
    project.set_mut_selected(None);
    assert!(project.update_selected());
    assert_eq!(project.get_selected(), None);
    project.set_previous_selected();
    assert_eq!(project.get_selected(), Some(1));
}

#[test]
fn save_and_load_round_trip() {
    let mut project = project_of(vec![
        Object::new(1, ObjectType::DataMask),
        Object::new(2, ObjectType::Key),
        Object::new(3, ObjectType::DataMask),
    ]);
    project.set_renaming_object(0, 2, "Start".to_string());
    let key = project.get_pool().object_by_id(2).unwrap().duplicate();
    project.get_object_info(&key);
    project.finish_renaming_object(true);
    project.set_mut_selected(Some(3));
    let metadata = project.saved_metadata();
    assert_eq!(metadata, vec![(1, None), (2, Some("Start".to_string())), (3, None)]);
    let selected = project.saved_selection();
    assert_eq!(selected, Some(3));
    let pool = project.get_pool().snapshot();
    let mut loaded = EditorProject::load_project(pool, 500, (80, 80), &metadata, selected);
    assert_eq!(name_of(&mut loaded, 2), "Start");
    assert_eq!(name_of(&mut loaded, 1), "Main Screen");
    assert_eq!(name_of(&mut loaded, 3), "Data Screen 2");
    assert_eq!(loaded.get_selected(), Some(3));
    assert_eq!(loaded.mask_size(), 500);
    let none = EditorProject::load_project(pool_of(vec![]), 500, (80, 80), &vec![], Some(65535));
    assert_eq!(none.get_selected(), None);
}

#[test]
fn sorting_changes_only_the_working_pool() {
    let mut project = project_of(vec![
        Object::new(9, ObjectType::Key),
        Object::new(2, ObjectType::DataMask),
    ]);
    project.sort_objects_by(SortOrder::ById);
    assert_eq!(project.get_mut_pool().object_at(0).id, 2);
    assert_eq!(project.get_pool().object_at(0).id, 9);
    assert!(project.update_pool());
    assert_eq!(project.get_pool().object_at(0).id, 2);
}

#[test]
fn sorting_by_shown_name() {
    let mut project = project_of(vec![
        Object::new(1, ObjectType::Key),
        Object::new(2, ObjectType::DataMask),
        Object::new(3, ObjectType::Button),
    ]);
    project.set_renaming_object(0, 1, "zeta".to_string());
    let key = project.get_pool().object_by_id(1).unwrap().duplicate();
    project.get_object_info(&key);
    project.finish_renaming_object(true);
    project.sort_objects_by(SortOrder::ByName);
    let ids: Vec<u16> = (0..3).map(|i| project.get_mut_pool().object_at(i).id).collect();
    assert_eq!(ids, vec![2, 3, 1]);
    project.sort_objects_by(SortOrder::ByType);
    let ids: Vec<u16> = (0..3).map(|i| project.get_mut_pool().object_at(i).id).collect();
    assert_eq!(ids, vec![2, 1, 3]);
}

#[test]
fn allocation_avoids_numbers_of_the_committed_pool() {
    let mut project = project_of(vec![Object::new(1, ObjectType::DataMask)]);
    assert!(project.add_object(Object::new(2, ObjectType::Key)));
    assert!(project.update_pool());
    assert!(project.remove_object(2).is_some());
    assert_eq!(project.allocate_object_id(), 3);
}

#[test]
fn allocation_moves_upward_and_resynchronises() {
    let mut project = project_of(vec![Object::new(5, ObjectType::DataMask)]);
    assert_eq!(project.allocate_object_id(), 6);
    assert_eq!(project.allocate_object_id(), 7);
    let mut full = project_of(vec![Object::new(65533, ObjectType::Key), Object::new(2, ObjectType::Key)]);
    assert_eq!(full.allocate_object_id(), 65534);
    assert_eq!(full.allocate_object_id(), 1);
    assert_eq!(full.allocate_object_id(), 3);
}

#[test]
fn fresh_metadata_has_a_random_identity() {
    let mut project = project_of(vec![Object::new(5, ObjectType::DataMask)]);
    let object = project.get_pool().object_by_id(5).unwrap().duplicate();
    let id = project.get_object_info(&object).get_unique_id();
    assert_eq!((id >> 76) & 0xf, 4);
    assert_eq!((id >> 62) & 0x3, 2);
    assert_eq!(project.get_object_info(&object).get_unique_id(), id);
}
