use ag_iso_terminal_designer::object_info::default_object_name;
use ag_iso_terminal_designer::smart_naming::{
    generate_contextual_name, generate_smart_default_name, suggest_name_for_child,
    validate_and_suggest_name,
};
use ag_iso_terminal_designer::text::{decimal_string, numbered_string, text_le_exec};
use ag_iso_terminal_designer::{Object, ObjectInfo, ObjectPool, ObjectType};

fn key(id: u16, code: u8) -> Object {
    let mut o = Object::new(id, ObjectType::Key);
    o.key_code = code;
    o
}

fn names(v: &[&str]) -> Vec<String> {
    v.iter().map(|s| s.to_string()).collect()
}

#[test]
fn decimal_forms() {
    assert_eq!(decimal_string(0), "0");
    assert_eq!(decimal_string(7), "7");
    assert_eq!(decimal_string(10), "10");
    assert_eq!(decimal_string(65535), "65535");
    assert_eq!(numbered_string("Data Screen", 2), "Data Screen 2");
}

#[test]
fn contextual_names_of_keys() {
    assert_eq!(generate_contextual_name(&key(1, 0)).as_deref(), Some("ACK/Enter Key"));
    assert_eq!(generate_contextual_name(&key(1, 1)).as_deref(), Some("ESC Key"));
    assert_eq!(generate_contextual_name(&key(1, 2)).as_deref(), Some("Soft Key 1"));
    assert_eq!(generate_contextual_name(&key(1, 7)).as_deref(), Some("Soft Key 6"));
    assert_eq!(generate_contextual_name(&key(1, 8)), None);
}

#[test]
fn contextual_names_of_buttons_and_containers() {
    let mut b = Object::new(1, ObjectType::Button);
    assert_eq!(generate_contextual_name(&b).as_deref(), Some("OK"));
    b.key_code = 1;
    assert_eq!(generate_contextual_name(&b).as_deref(), Some("Cancel"));
    b.key_code = 2;
    assert_eq!(generate_contextual_name(&b), None);
    let mut c = Object::new(2, ObjectType::Container);
    c.height = 50;
    assert_eq!(generate_contextual_name(&c).as_deref(), Some("Header Container"));
    c.height = 200;
    assert_eq!(generate_contextual_name(&c), None);
    c.height = 400;
    assert_eq!(generate_contextual_name(&c).as_deref(), Some("Main Container"));
    assert_eq!(generate_contextual_name(&Object::new(3, ObjectType::Macro)), None);
}

#[test]
fn smart_default_names() {
    let none: Vec<String> = Vec::new();
    assert_eq!(generate_smart_default_name(ObjectType::DataMask, 0, &none), "Main Screen");
    assert_eq!(generate_smart_default_name(ObjectType::DataMask, 1, &none), "Data Screen 2");
    assert_eq!(generate_smart_default_name(ObjectType::Key, 0, &none), "Key");
    assert_eq!(generate_smart_default_name(ObjectType::InputBoolean, 0, &none), "Checkbox");
    let taken = names(&["Key", "Key 1"]);
    assert_eq!(generate_smart_default_name(ObjectType::Key, 0, &taken), "Key 2");
    let taken = names(&["Data Screen 2", "Data Screen 3"]);
    assert_eq!(generate_smart_default_name(ObjectType::DataMask, 1, &taken), "Data Screen 4");
    let taken = names(&["Main Screen"]);
    assert_eq!(generate_smart_default_name(ObjectType::DataMask, 0, &taken), "Main Screen 1");
}

#[test]
fn validation_of_typed_names() {
    let existing = names(&["Main Screen", "Key", "Key 2"]);
    assert_eq!(validate_and_suggest_name("", &existing), Err("Name cannot be empty".to_string()));
    assert_eq!(validate_and_suggest_name(" \t ", &existing), Err("Name cannot be empty".to_string()));
    assert_eq!(
        validate_and_suggest_name("\u{3000}\u{2028}\u{85}", &existing),
        Err("Name cannot be empty".to_string())
    );
    assert_eq!(validate_and_suggest_name("\u{200b}", &existing), Ok(()));
    let long = "x".repeat(101);
    assert_eq!(
        validate_and_suggest_name(&long, &existing),
        Err("Name is too long (max 100 characters)".to_string())
    );
    assert_eq!(validate_and_suggest_name(&"x".repeat(100), &existing), Ok(()));
    assert_eq!(validate_and_suggest_name("Soft Key", &existing), Ok(()));
    assert_eq!(
        validate_and_suggest_name("Key", &existing),
        Err("Name 'Key' already exists. Try 'Key 3'".to_string())
    );
    assert_eq!(
        validate_and_suggest_name("Main Screen", &existing),
        Err("Name 'Main Screen' already exists. Try 'Main Screen 2'".to_string())
    );
}

#[test]
fn validation_counts_bytes() {
    let existing: Vec<String> = Vec::new();
    let wide = "é".repeat(51);
    assert_eq!(
        validate_and_suggest_name(&wide, &existing),
        Err("Name is too long (max 100 characters)".to_string())
    );
}

#[test]
fn child_suggestions() {
    let mut pool = ObjectPool::new();
    let mut mask = Object::new(1, ObjectType::SoftKeyMask);
    mask.references = vec![2, 3, 9];
    assert!(pool.add(key(2, 10)));
    assert!(pool.add(Object::new(3, ObjectType::OutputString)));
    assert_eq!(
        suggest_name_for_child(&mask, ObjectType::Key, &pool).as_deref(),
        Some("F2 Key")
    );
    let container = Object::new(4, ObjectType::Container);
    assert_eq!(
        suggest_name_for_child(&container, ObjectType::Button, &pool).as_deref(),
        Some("Container Button")
    );
    assert_eq!(
        suggest_name_for_child(&container, ObjectType::OutputString, &pool).as_deref(),
        Some("Container Label")
    );
    let mut data_mask = Object::new(5, ObjectType::DataMask);
    assert_eq!(
        suggest_name_for_child(&data_mask, ObjectType::Container, &pool).as_deref(),
        Some("Header Container")
    );
    assert!(pool.add(Object::new(6, ObjectType::Container)));
    assert!(pool.add(Object::new(7, ObjectType::Container)));
    assert!(pool.add(Object::new(8, ObjectType::Container)));
    data_mask.references = vec![6];
    assert_eq!(
        suggest_name_for_child(&data_mask, ObjectType::Container, &pool).as_deref(),
        Some("Main Container")
    );
    data_mask.references = vec![6, 7];
    assert_eq!(
        suggest_name_for_child(&data_mask, ObjectType::Container, &pool).as_deref(),
        Some("Footer Container")
    );
    data_mask.references = vec![6, 7, 8];
    assert_eq!(suggest_name_for_child(&data_mask, ObjectType::Container, &pool), None);
    assert_eq!(suggest_name_for_child(&data_mask, ObjectType::Key, &pool), None);
}

#[test]
fn object_info_names() {
    let o = Object::new(5, ObjectType::DataMask);
    let mut info = ObjectInfo::new(&o);
    assert_eq!(info.get_name(&o), "5: DataMask");
    assert_eq!(default_object_name(&Object::new(12, ObjectType::OutputString)), "12: OutputString");
    info.set_name(String::new());
    assert!(!info.has_name());
    info.set_name("Start".to_string());
    assert_eq!(info.get_name(&o), "Start");
    assert_eq!(info.name_copy().as_deref(), Some("Start"));
}

#[test]
fn object_info_identities() {
    let o = Object::new(5, ObjectType::DataMask);
    let a = ObjectInfo::new(&o);
    let b = ObjectInfo::new(&o);
    assert!(a != b);
    assert!(a == a.duplicate());
    assert_eq!((a.get_unique_id() >> 76) & 0xf, 4);
    assert_eq!((b.get_unique_id() >> 76) & 0xf, 4);
    assert_eq!((a.get_unique_id() >> 62) & 0x3, 2);
}

#[test]
fn text_order_follows_code_points() {
    assert!(text_le_exec("Key", "Key 2"));
    assert!(!text_le_exec("Key 2", "Key"));
    assert!(text_le_exec("Data", "Main"));
    assert!(text_le_exec("Z", "a"));
    assert!(text_le_exec("", ""));
    assert!(text_le_exec("é", "é"));
    assert!(!text_le_exec("é", "e"));
}
