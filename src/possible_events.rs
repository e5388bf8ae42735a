//! The macro events that each object kind can raise.

use crate::object_type::ObjectType;
use vstd::prelude::*;

verus! {

/// An event of an object that a macro can be bound to, in the order of the event
/// numbers of ISO 11783-6.
#[derive(Clone, Copy, Debug, PartialEq, Eq, Hash, Structural)]
pub enum Event {
    OnActivate,
    OnDeactivate,
    OnShow,
    OnHide,
    OnEnable,
    OnDisable,
    OnChangeActiveMask,
    OnChangeSoftKeyMask,
    OnChangeAttribute,
    OnChangeBackgroundColour,
    OnChangeFontAttributes,
    OnChangeLineAttributes,
    OnChangeFillAttributes,
    OnChangeChildLocation,
    OnChangeSize,
    OnChangeValue,
    OnChangePriority,
    OnChangeEndPoint,
    OnInputFieldSelection,
    OnInputFieldDeselection,
    OnESC,
    OnEntryOfValue,
    OnEntryOfNewValue,
    OnKeyPress,
    OnKeyRelease,
    OnChangeChildPosition,
    OnPointingEventPress,
    OnPointingEventRelease,
}

/// The events that an object of kind `t` can raise; kinds that raise none, or
/// whose events the editor does not offer, have an empty list.
pub open spec fn possible_events(t: ObjectType) -> Seq<Event> {
    match t {
        ObjectType::WorkingSet => possible_events_of_working_set(),
        ObjectType::DataMask => possible_events_of_data_mask(),
        ObjectType::AlarmMask => possible_events_of_alarm_mask(),
        ObjectType::Container => possible_events_of_container(),
        ObjectType::SoftKeyMask => possible_events_of_soft_key_mask(),
        ObjectType::Key => possible_events_of_key(),
        ObjectType::Button => possible_events_of_button(),
        ObjectType::InputBoolean => possible_events_of_input_boolean(),
        ObjectType::InputString => possible_events_of_input_boolean(),
        ObjectType::InputNumber => possible_events_of_input_boolean(),
        ObjectType::InputList => possible_events_of_input_list(),
        ObjectType::OutputString => possible_events_of_output_string(),
        ObjectType::OutputNumber => possible_events_of_output_string(),
        ObjectType::OutputList => possible_events_of_output_list(),
        ObjectType::OutputLine => possible_events_of_output_line(),
        ObjectType::OutputRectangle => possible_events_of_output_rectangle(),
        ObjectType::OutputEllipse => possible_events_of_output_ellipse(),
        ObjectType::OutputPolygon => possible_events_of_output_polygon(),
        ObjectType::OutputMeter => possible_events_of_output_meter(),
        ObjectType::OutputLinearBarGraph => possible_events_of_output_linear_bar_graph(),
        ObjectType::OutputArchedBarGraph => possible_events_of_output_arched_bar_graph(),
        ObjectType::PictureGraphic => possible_events_of_picture_graphic(),
        ObjectType::NumberVariable => possible_events_of_number_variable(),
        ObjectType::StringVariable => possible_events_of_string_variable(),
        ObjectType::FontAttributes => possible_events_of_font_attributes(),
        ObjectType::LineAttributes => possible_events_of_line_attributes(),
        ObjectType::FillAttributes => possible_events_of_fill_attributes(),
        ObjectType::InputAttributes => possible_events_of_input_attributes(),
        ObjectType::ObjectPointer => possible_events_of_object_pointer(),
        ObjectType::GraphicsContext => possible_events_of_graphics_context(),
        ObjectType::KeyGroup => possible_events_of_key_group(),
        ObjectType::ExternalObjectDefinition => possible_events_of_external_object_definition(),
        ObjectType::WindowMask => possible_events_of_window_mask(),
        ObjectType::ExternalReferenceName => possible_events_of_external_reference_name(),
        ObjectType::ExternalObjectPointer => possible_events_of_external_object_pointer(),
        ObjectType::Animation => possible_events_of_animation(),
        ObjectType::ScaledGraphic => possible_events_of_scaled_graphic(),
        _ => seq![],
    }
}

/// The events of a working set.
pub open spec fn possible_events_of_working_set() -> Seq<Event> {
    seq![Event::OnActivate, Event::OnDeactivate, Event::OnChangeActiveMask, Event::OnChangeBackgroundColour, Event::OnChangeChildLocation, Event::OnChangeChildPosition]
}

/// The events of a data mask.
pub open spec fn possible_events_of_data_mask() -> Seq<Event> {
    seq![Event::OnShow, Event::OnHide, Event::OnChangeBackgroundColour, Event::OnChangeChildLocation, Event::OnChangeChildPosition, Event::OnChangeSoftKeyMask, Event::OnChangeAttribute, Event::OnPointingEventPress, Event::OnPointingEventRelease]
}

/// The events of an alarm mask.
pub open spec fn possible_events_of_alarm_mask() -> Seq<Event> {
    seq![Event::OnShow, Event::OnHide, Event::OnChangeBackgroundColour, Event::OnChangeChildLocation, Event::OnChangeChildPosition, Event::OnChangePriority, Event::OnChangeSoftKeyMask, Event::OnChangeAttribute]
}

/// The events of a container.
pub open spec fn possible_events_of_container() -> Seq<Event> {
    seq![Event::OnShow, Event::OnHide, Event::OnChangeChildLocation, Event::OnChangeChildPosition, Event::OnChangeSize]
}

/// The events of a soft key mask.
pub open spec fn possible_events_of_soft_key_mask() -> Seq<Event> {
    seq![Event::OnShow, Event::OnHide, Event::OnChangeBackgroundColour, Event::OnChangeAttribute]
}

/// The events of a key.
pub open spec fn possible_events_of_key() -> Seq<Event> {
    seq![Event::OnKeyPress, Event::OnKeyRelease, Event::OnChangeBackgroundColour, Event::OnChangeChildLocation, Event::OnChangeChildPosition, Event::OnChangeAttribute, Event::OnInputFieldSelection, Event::OnInputFieldDeselection]
}

/// The events of a button.
pub open spec fn possible_events_of_button() -> Seq<Event> {
    seq![Event::OnEnable, Event::OnDisable, Event::OnInputFieldSelection, Event::OnInputFieldDeselection, Event::OnKeyPress, Event::OnKeyRelease, Event::OnChangeBackgroundColour, Event::OnChangeSize, Event::OnChangeChildLocation, Event::OnChangeChildPosition, Event::OnChangeAttribute]
}

/// The events of an input boolean.
pub open spec fn possible_events_of_input_boolean() -> Seq<Event> {
    seq![Event::OnEnable, Event::OnDisable, Event::OnInputFieldSelection, Event::OnInputFieldDeselection, Event::OnESC, Event::OnChangeBackgroundColour, Event::OnChangeValue, Event::OnEntryOfValue, Event::OnEntryOfNewValue, Event::OnChangeAttribute, Event::OnChangeSize]
}

/// The events of an input list.
pub open spec fn possible_events_of_input_list() -> Seq<Event> {
    seq![Event::OnEnable, Event::OnDisable, Event::OnInputFieldSelection, Event::OnInputFieldDeselection, Event::OnESC, Event::OnChangeValue, Event::OnEntryOfValue, Event::OnEntryOfNewValue, Event::OnChangeAttribute, Event::OnChangeSize]
}

/// The events of an output string.
pub open spec fn possible_events_of_output_string() -> Seq<Event> {
    seq![Event::OnChangeBackgroundColour, Event::OnChangeValue, Event::OnChangeAttribute, Event::OnChangeSize]
}

/// The events of an output list.
pub open spec fn possible_events_of_output_list() -> Seq<Event> {
    seq![Event::OnChangeValue, Event::OnChangeAttribute, Event::OnChangeSize]
}

/// The events of an output line.
pub open spec fn possible_events_of_output_line() -> Seq<Event> {
    seq![Event::OnChangeEndPoint, Event::OnChangeAttribute, Event::OnChangeSize]
}

/// The events of an output rectangle.
pub open spec fn possible_events_of_output_rectangle() -> Seq<Event> {
    seq![Event::OnChangeSize, Event::OnChangeAttribute]
}

/// The events of an output ellipse.
pub open spec fn possible_events_of_output_ellipse() -> Seq<Event> {
    seq![Event::OnChangeSize, Event::OnChangeAttribute]
}

/// The events of an output polygon.
pub open spec fn possible_events_of_output_polygon() -> Seq<Event> {
    seq![Event::OnChangeAttribute, Event::OnChangeSize]
}

/// The events of an output meter.
pub open spec fn possible_events_of_output_meter() -> Seq<Event> {
    seq![Event::OnChangeValue, Event::OnChangeAttribute, Event::OnChangeSize]
}

/// The events of an output linear bar graph.
pub open spec fn possible_events_of_output_linear_bar_graph() -> Seq<Event> {
    seq![Event::OnChangeValue, Event::OnChangeAttribute, Event::OnChangeSize]
}

/// The events of an output arched bar graph.
pub open spec fn possible_events_of_output_arched_bar_graph() -> Seq<Event> {
    seq![Event::OnChangeValue, Event::OnChangeAttribute, Event::OnChangeSize]
}

/// The events of a picture graphic.
pub open spec fn possible_events_of_picture_graphic() -> Seq<Event> {
    seq![Event::OnChangeAttribute]
}

/// The events of a number variable.
pub open spec fn possible_events_of_number_variable() -> Seq<Event> {
    seq![Event::OnChangeValue]
}

/// The events of a string variable.
pub open spec fn possible_events_of_string_variable() -> Seq<Event> {
    seq![Event::OnChangeValue]
}

/// The events of a font attributes.
pub open spec fn possible_events_of_font_attributes() -> Seq<Event> {
    seq![Event::OnChangeFontAttributes, Event::OnChangeAttribute]
}

/// The events of a line attributes.
pub open spec fn possible_events_of_line_attributes() -> Seq<Event> {
    seq![Event::OnChangeLineAttributes, Event::OnChangeAttribute]
}

/// The events of a fill attributes.
pub open spec fn possible_events_of_fill_attributes() -> Seq<Event> {
    seq![Event::OnChangeFillAttributes, Event::OnChangeAttribute]
}

/// The events of an input attributes.
pub open spec fn possible_events_of_input_attributes() -> Seq<Event> {
    seq![Event::OnChangeValue]
}

/// The events of an object pointer.
pub open spec fn possible_events_of_object_pointer() -> Seq<Event> {
    seq![Event::OnChangeValue]
}

/// The events of a graphics context.
pub open spec fn possible_events_of_graphics_context() -> Seq<Event> {
    seq![Event::OnChangeAttribute, Event::OnChangeBackgroundColour]
}

/// The events of a key group.
pub open spec fn possible_events_of_key_group() -> Seq<Event> {
    seq![Event::OnChangeAttribute]
}

/// The events of an external object definition.
pub open spec fn possible_events_of_external_object_definition() -> Seq<Event> {
    seq![Event::OnChangeAttribute]
}

/// The events of a window mask.
pub open spec fn possible_events_of_window_mask() -> Seq<Event> {
    seq![Event::OnShow, Event::OnHide, Event::OnChangeBackgroundColour, Event::OnChangeChildLocation, Event::OnChangeChildPosition, Event::OnChangeAttribute, Event::OnPointingEventPress, Event::OnPointingEventRelease]
}

/// The events of an external reference name.
pub open spec fn possible_events_of_external_reference_name() -> Seq<Event> {
    seq![Event::OnChangeAttribute]
}

/// The events of an external object pointer.
pub open spec fn possible_events_of_external_object_pointer() -> Seq<Event> {
    seq![Event::OnChangeValue]
}

/// The events of an animation.
pub open spec fn possible_events_of_animation() -> Seq<Event> {
    seq![Event::OnEnable, Event::OnDisable, Event::OnChangeValue, Event::OnChangeAttribute, Event::OnChangeSize]
}

/// The events of a scaled graphic.
pub open spec fn possible_events_of_scaled_graphic() -> Seq<Event> {
    seq![Event::OnChangeAttribute, Event::OnChangeValue]
}

/// The events that an object of kind `object_type` can raise.
pub fn get_possible_events(object_type: ObjectType) -> (r: Vec<Event>)
    ensures
        r@ == possible_events(object_type),
{
    let r = match object_type {
        ObjectType::WorkingSet => vec![Event::OnActivate, Event::OnDeactivate, Event::OnChangeActiveMask, Event::OnChangeBackgroundColour, Event::OnChangeChildLocation, Event::OnChangeChildPosition],
        ObjectType::DataMask => vec![Event::OnShow, Event::OnHide, Event::OnChangeBackgroundColour, Event::OnChangeChildLocation, Event::OnChangeChildPosition, Event::OnChangeSoftKeyMask, Event::OnChangeAttribute, Event::OnPointingEventPress, Event::OnPointingEventRelease],
        ObjectType::AlarmMask => vec![Event::OnShow, Event::OnHide, Event::OnChangeBackgroundColour, Event::OnChangeChildLocation, Event::OnChangeChildPosition, Event::OnChangePriority, Event::OnChangeSoftKeyMask, Event::OnChangeAttribute],
        ObjectType::Container => vec![Event::OnShow, Event::OnHide, Event::OnChangeChildLocation, Event::OnChangeChildPosition, Event::OnChangeSize],
        ObjectType::SoftKeyMask => vec![Event::OnShow, Event::OnHide, Event::OnChangeBackgroundColour, Event::OnChangeAttribute],
        ObjectType::Key => vec![Event::OnKeyPress, Event::OnKeyRelease, Event::OnChangeBackgroundColour, Event::OnChangeChildLocation, Event::OnChangeChildPosition, Event::OnChangeAttribute, Event::OnInputFieldSelection, Event::OnInputFieldDeselection],
        ObjectType::Button => vec![Event::OnEnable, Event::OnDisable, Event::OnInputFieldSelection, Event::OnInputFieldDeselection, Event::OnKeyPress, Event::OnKeyRelease, Event::OnChangeBackgroundColour, Event::OnChangeSize, Event::OnChangeChildLocation, Event::OnChangeChildPosition, Event::OnChangeAttribute],
        ObjectType::InputBoolean => vec![Event::OnEnable, Event::OnDisable, Event::OnInputFieldSelection, Event::OnInputFieldDeselection, Event::OnESC, Event::OnChangeBackgroundColour, Event::OnChangeValue, Event::OnEntryOfValue, Event::OnEntryOfNewValue, Event::OnChangeAttribute, Event::OnChangeSize],
        // input fields raise the events of a boolean input
        ObjectType::InputString => vec![Event::OnEnable, Event::OnDisable, Event::OnInputFieldSelection, Event::OnInputFieldDeselection, Event::OnESC, Event::OnChangeBackgroundColour, Event::OnChangeValue, Event::OnEntryOfValue, Event::OnEntryOfNewValue, Event::OnChangeAttribute, Event::OnChangeSize],
        // input fields raise the events of a boolean input
        ObjectType::InputNumber => vec![Event::OnEnable, Event::OnDisable, Event::OnInputFieldSelection, Event::OnInputFieldDeselection, Event::OnESC, Event::OnChangeBackgroundColour, Event::OnChangeValue, Event::OnEntryOfValue, Event::OnEntryOfNewValue, Event::OnChangeAttribute, Event::OnChangeSize],
        ObjectType::InputList => vec![Event::OnEnable, Event::OnDisable, Event::OnInputFieldSelection, Event::OnInputFieldDeselection, Event::OnESC, Event::OnChangeValue, Event::OnEntryOfValue, Event::OnEntryOfNewValue, Event::OnChangeAttribute, Event::OnChangeSize],
        ObjectType::OutputString => vec![Event::OnChangeBackgroundColour, Event::OnChangeValue, Event::OnChangeAttribute, Event::OnChangeSize],
        // output fields raise the events of an output string
        ObjectType::OutputNumber => vec![Event::OnChangeBackgroundColour, Event::OnChangeValue, Event::OnChangeAttribute, Event::OnChangeSize],
        ObjectType::OutputList => vec![Event::OnChangeValue, Event::OnChangeAttribute, Event::OnChangeSize],
        ObjectType::OutputLine => vec![Event::OnChangeEndPoint, Event::OnChangeAttribute, Event::OnChangeSize],
        ObjectType::OutputRectangle => vec![Event::OnChangeSize, Event::OnChangeAttribute],
        ObjectType::OutputEllipse => vec![Event::OnChangeSize, Event::OnChangeAttribute],
        ObjectType::OutputPolygon => vec![Event::OnChangeAttribute, Event::OnChangeSize],
        ObjectType::OutputMeter => vec![Event::OnChangeValue, Event::OnChangeAttribute, Event::OnChangeSize],
        ObjectType::OutputLinearBarGraph => vec![Event::OnChangeValue, Event::OnChangeAttribute, Event::OnChangeSize],
        ObjectType::OutputArchedBarGraph => vec![Event::OnChangeValue, Event::OnChangeAttribute, Event::OnChangeSize],
        ObjectType::PictureGraphic => vec![Event::OnChangeAttribute],
        ObjectType::NumberVariable => vec![Event::OnChangeValue],
        ObjectType::StringVariable => vec![Event::OnChangeValue],
        ObjectType::FontAttributes => vec![Event::OnChangeFontAttributes, Event::OnChangeAttribute],
        ObjectType::LineAttributes => vec![Event::OnChangeLineAttributes, Event::OnChangeAttribute],
        ObjectType::FillAttributes => vec![Event::OnChangeFillAttributes, Event::OnChangeAttribute],
        ObjectType::InputAttributes => vec![Event::OnChangeValue],
        ObjectType::ObjectPointer => vec![Event::OnChangeValue],
        ObjectType::GraphicsContext => vec![Event::OnChangeAttribute, Event::OnChangeBackgroundColour],
        ObjectType::KeyGroup => vec![Event::OnChangeAttribute],
        ObjectType::ExternalObjectDefinition => vec![Event::OnChangeAttribute],
        ObjectType::WindowMask => vec![Event::OnShow, Event::OnHide, Event::OnChangeBackgroundColour, Event::OnChangeChildLocation, Event::OnChangeChildPosition, Event::OnChangeAttribute, Event::OnPointingEventPress, Event::OnPointingEventRelease],
        ObjectType::ExternalReferenceName => vec![Event::OnChangeAttribute],
        ObjectType::ExternalObjectPointer => vec![Event::OnChangeValue],
        ObjectType::Animation => vec![Event::OnEnable, Event::OnDisable, Event::OnChangeValue, Event::OnChangeAttribute, Event::OnChangeSize],
        ObjectType::ScaledGraphic => vec![Event::OnChangeAttribute, Event::OnChangeValue],
        _ => Vec::new(),
    };
    assert(r@ =~= possible_events(object_type));
    r
}

} // verus!
