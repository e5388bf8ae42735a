use ag_iso_terminal_designer::relationships::{candidate_children, object_label_children};
use ag_iso_terminal_designer::{get_allowed_child_refs, Object, ObjectPool, ObjectType, VtVersion};

const VERSIONS: [VtVersion; 7] = [
    VtVersion::Version0,
    VtVersion::Version1,
    VtVersion::Version2,
    VtVersion::Version3,
    VtVersion::Version4,
    VtVersion::Version5,
    VtVersion::Version6,
];

#[test]
fn data_mask_gains_working_set_at_version_three() {
    let v2 = get_allowed_child_refs(ObjectType::DataMask, VtVersion::Version2);
    let v3 = get_allowed_child_refs(ObjectType::DataMask, VtVersion::Version3);
    assert!(!v2.contains(&ObjectType::WorkingSet));
    assert!(v3.contains(&ObjectType::WorkingSet));
    assert_eq!(v2.len(), 17);
    assert_eq!(v3.len(), 18);
}

#[test]
fn data_mask_version_six_list() {
    let v6 = get_allowed_child_refs(ObjectType::DataMask, VtVersion::Version6);
    assert_eq!(v6.len(), 23);
    assert_eq!(v6[0], ObjectType::Container);
    assert_eq!(v6[17], ObjectType::WorkingSet);
    assert_eq!(v6[18], ObjectType::OutputList);
    assert_eq!(v6[19], ObjectType::GraphicsContext);
    assert_eq!(v6[20], ObjectType::Animation);
    assert_eq!(v6[21], ObjectType::ExternalObjectPointer);
    assert_eq!(v6[22], ObjectType::ScaledGraphic);
}

#[test]
fn delegating_kinds_share_rules() {
    for v in VERSIONS {
        assert_eq!(
            get_allowed_child_refs(ObjectType::Container, v),
            get_allowed_child_refs(ObjectType::DataMask, v)
        );
        assert_eq!(
            get_allowed_child_refs(ObjectType::Button, v),
            get_allowed_child_refs(ObjectType::Key, v)
        );
        assert_eq!(
            get_allowed_child_refs(ObjectType::OutputList, v),
            get_allowed_child_refs(ObjectType::WindowMask, v)
        );
        assert_eq!(
            get_allowed_child_refs(ObjectType::AuxiliaryInputType2, v),
            get_allowed_child_refs(ObjectType::AuxiliaryFunctionType2, v)
        );
    }
}

#[test]
fn childless_kinds_allow_nothing() {
    for v in VERSIONS {
        assert!(get_allowed_child_refs(ObjectType::NumberVariable, v).is_empty());
        assert!(get_allowed_child_refs(ObjectType::FontAttributes, v).is_empty());
        assert!(get_allowed_child_refs(ObjectType::ObjectLabelReferenceList, v).is_empty());
    }
}

#[test]
fn soft_key_mask_and_key_group() {
    assert_eq!(
        get_allowed_child_refs(ObjectType::SoftKeyMask, VtVersion::Version4),
        vec![ObjectType::Key, ObjectType::ObjectPointer]
    );
    assert_eq!(
        get_allowed_child_refs(ObjectType::SoftKeyMask, VtVersion::Version5),
        vec![ObjectType::Key, ObjectType::ObjectPointer, ObjectType::ExternalObjectPointer]
    );
    assert!(get_allowed_child_refs(ObjectType::KeyGroup, VtVersion::Version3).is_empty());
    assert_eq!(
        get_allowed_child_refs(ObjectType::KeyGroup, VtVersion::Version4),
        vec![ObjectType::Key]
    );
}

#[test]
fn object_label_children_by_version() {
    assert!(object_label_children(VtVersion::Version3).is_empty());
    assert_eq!(object_label_children(VtVersion::Version4).len(), 14);
    assert_eq!(object_label_children(VtVersion::Version6).len(), 15);
}

#[test]
fn schema_is_monotonic_in_version() {
    let kinds = [
        ObjectType::WorkingSet,
        ObjectType::DataMask,
        ObjectType::AlarmMask,
        ObjectType::Container,
        ObjectType::SoftKeyMask,
        ObjectType::Key,
        ObjectType::Button,
        ObjectType::InputList,
        ObjectType::OutputList,
        ObjectType::AuxiliaryFunctionType1,
        ObjectType::AuxiliaryInputType1,
        ObjectType::AuxiliaryFunctionType2,
        ObjectType::AuxiliaryInputType2,
        ObjectType::WindowMask,
        ObjectType::KeyGroup,
        ObjectType::Animation,
        ObjectType::ObjectLabelReferenceList,
        ObjectType::Macro,
    ];
    for t in kinds {
        for (i, v1) in VERSIONS.iter().enumerate() {
            for v2 in &VERSIONS[i..] {
                let lo = get_allowed_child_refs(t, *v1);
                let hi = get_allowed_child_refs(t, *v2);
                for c in &lo {
                    assert!(hi.contains(c), "{:?} {:?} {:?} {:?}", t, v1, v2, c);
                }
            }
        }
    }
}

#[test]
fn candidates_follow_the_schema() {
    let mut pool = ObjectPool::new();
    for (id, t) in [
        (1, ObjectType::WorkingSet),
        (2, ObjectType::DataMask),
        (3, ObjectType::Key),
        (4, ObjectType::OutputList),
        (5, ObjectType::Container),
    ] {
        assert!(pool.add(Object::new(id, t)));
    }
    assert_eq!(candidate_children(&pool, ObjectType::SoftKeyMask, VtVersion::Version3), vec![3]);
    assert_eq!(candidate_children(&pool, ObjectType::DataMask, VtVersion::Version3), vec![1, 5]);
    assert_eq!(candidate_children(&pool, ObjectType::DataMask, VtVersion::Version4), vec![1, 4, 5]);
    assert_eq!(candidate_children(&pool, ObjectType::Macro, VtVersion::Version6), Vec::<u16>::new());
    assert_eq!(
        pool.objects_by_types(&vec![ObjectType::Key, ObjectType::WorkingSet]),
        vec![1, 3]
    );
}
