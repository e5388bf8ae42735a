use ag_iso_terminal_designer::possible_events::{get_possible_events, Event};
use ag_iso_terminal_designer::ObjectType;

#[test]
fn working_set_events() {
    assert_eq!(
        get_possible_events(ObjectType::WorkingSet),
        vec![
            Event::OnActivate,
            Event::OnDeactivate,
            Event::OnChangeActiveMask,
            Event::OnChangeBackgroundColour,
            Event::OnChangeChildLocation,
            Event::OnChangeChildPosition,
        ]
    );
}

#[test]
fn input_fields_share_events() {
    let boolean = get_possible_events(ObjectType::InputBoolean);
    assert_eq!(boolean.len(), 11);
    assert_eq!(get_possible_events(ObjectType::InputString), boolean);
    assert_eq!(get_possible_events(ObjectType::InputNumber), boolean);
    assert_eq!(
        get_possible_events(ObjectType::OutputNumber),
        get_possible_events(ObjectType::OutputString)
    );
}

#[test]
fn kinds_without_events() {
    assert!(get_possible_events(ObjectType::Macro).is_empty());
    assert!(get_possible_events(ObjectType::ColourMap).is_empty());
    assert_eq!(get_possible_events(ObjectType::NumberVariable), vec![Event::OnChangeValue]);
    assert_eq!(
        get_possible_events(ObjectType::OutputLine),
        vec![Event::OnChangeEndPoint, Event::OnChangeAttribute, Event::OnChangeSize]
    );
}
