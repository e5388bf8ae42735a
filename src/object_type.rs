//! Object kinds of a VT object pool and the VT versions that the schema knows.

use vstd::prelude::*;

verus! {

/// The kind of an object in a VT object pool, in the order of the object type
/// numbers of ISO 11783-6.
#[derive(Clone, Copy, Debug, PartialEq, Eq, Hash, Structural)]
pub enum ObjectType {
    WorkingSet,
    DataMask,
    AlarmMask,
    Container,
    SoftKeyMask,
    Key,
    Button,
    InputBoolean,
    InputString,
    InputNumber,
    InputList,
    OutputString,
    OutputNumber,
    OutputLine,
    OutputRectangle,
    OutputEllipse,
    OutputPolygon,
    OutputMeter,
    OutputLinearBarGraph,
    OutputArchedBarGraph,
    PictureGraphic,
    NumberVariable,
    StringVariable,
    FontAttributes,
    LineAttributes,
    FillAttributes,
    InputAttributes,
    ObjectPointer,
    Macro,
    AuxiliaryFunctionType1,
    AuxiliaryInputType1,
    AuxiliaryFunctionType2,
    AuxiliaryInputType2,
    AuxiliaryControlDesignatorType2,
    WindowMask,
    KeyGroup,
    GraphicsContext,
    OutputList,
    ExtendedInputAttributes,
    ColourMap,
    ObjectLabelReferenceList,
    ExternalObjectDefinition,
    ExternalReferenceName,
    ExternalObjectPointer,
    Animation,
    ColourPalette,
    GraphicData,
    WorkingSetSpecialControls,
    ScaledGraphic,
}

/// The object type number of a kind.
pub open spec fn type_code(t: ObjectType) -> u8 {
    match t {
        ObjectType::WorkingSet => 0,
        ObjectType::DataMask => 1,
        ObjectType::AlarmMask => 2,
        ObjectType::Container => 3,
        ObjectType::SoftKeyMask => 4,
        ObjectType::Key => 5,
        ObjectType::Button => 6,
        ObjectType::InputBoolean => 7,
        ObjectType::InputString => 8,
        ObjectType::InputNumber => 9,
        ObjectType::InputList => 10,
        ObjectType::OutputString => 11,
        ObjectType::OutputNumber => 12,
        ObjectType::OutputLine => 13,
        ObjectType::OutputRectangle => 14,
        ObjectType::OutputEllipse => 15,
        ObjectType::OutputPolygon => 16,
        ObjectType::OutputMeter => 17,
        ObjectType::OutputLinearBarGraph => 18,
        ObjectType::OutputArchedBarGraph => 19,
        ObjectType::PictureGraphic => 20,
        ObjectType::NumberVariable => 21,
        ObjectType::StringVariable => 22,
        ObjectType::FontAttributes => 23,
        ObjectType::LineAttributes => 24,
        ObjectType::FillAttributes => 25,
        ObjectType::InputAttributes => 26,
        ObjectType::ObjectPointer => 27,
        ObjectType::Macro => 28,
        ObjectType::AuxiliaryFunctionType1 => 29,
        ObjectType::AuxiliaryInputType1 => 30,
        ObjectType::AuxiliaryFunctionType2 => 31,
        ObjectType::AuxiliaryInputType2 => 32,
        ObjectType::AuxiliaryControlDesignatorType2 => 33,
        ObjectType::WindowMask => 34,
        ObjectType::KeyGroup => 35,
        ObjectType::GraphicsContext => 36,
        ObjectType::OutputList => 37,
        ObjectType::ExtendedInputAttributes => 38,
        ObjectType::ColourMap => 39,
        ObjectType::ObjectLabelReferenceList => 40,
        ObjectType::ExternalObjectDefinition => 41,
        ObjectType::ExternalReferenceName => 42,
        ObjectType::ExternalObjectPointer => 43,
        ObjectType::Animation => 44,
        ObjectType::ColourPalette => 45,
        ObjectType::GraphicData => 46,
        ObjectType::WorkingSetSpecialControls => 47,
        ObjectType::ScaledGraphic => 48,
    }
}

impl ObjectType {
    /// The object type number of this kind.
    pub fn code(&self) -> (r: u8)
        ensures
            r == type_code(*self),
    {
        match self {
            ObjectType::WorkingSet => 0,
            ObjectType::DataMask => 1,
            ObjectType::AlarmMask => 2,
            ObjectType::Container => 3,
            ObjectType::SoftKeyMask => 4,
            ObjectType::Key => 5,
            ObjectType::Button => 6,
            ObjectType::InputBoolean => 7,
            ObjectType::InputString => 8,
            ObjectType::InputNumber => 9,
            ObjectType::InputList => 10,
            ObjectType::OutputString => 11,
            ObjectType::OutputNumber => 12,
            ObjectType::OutputLine => 13,
            ObjectType::OutputRectangle => 14,
            ObjectType::OutputEllipse => 15,
            ObjectType::OutputPolygon => 16,
            ObjectType::OutputMeter => 17,
            ObjectType::OutputLinearBarGraph => 18,
            ObjectType::OutputArchedBarGraph => 19,
            ObjectType::PictureGraphic => 20,
            ObjectType::NumberVariable => 21,
            ObjectType::StringVariable => 22,
            ObjectType::FontAttributes => 23,
            ObjectType::LineAttributes => 24,
            ObjectType::FillAttributes => 25,
            ObjectType::InputAttributes => 26,
            ObjectType::ObjectPointer => 27,
            ObjectType::Macro => 28,
            ObjectType::AuxiliaryFunctionType1 => 29,
            ObjectType::AuxiliaryInputType1 => 30,
            ObjectType::AuxiliaryFunctionType2 => 31,
            ObjectType::AuxiliaryInputType2 => 32,
            ObjectType::AuxiliaryControlDesignatorType2 => 33,
            ObjectType::WindowMask => 34,
            ObjectType::KeyGroup => 35,
            ObjectType::GraphicsContext => 36,
            ObjectType::OutputList => 37,
            ObjectType::ExtendedInputAttributes => 38,
            ObjectType::ColourMap => 39,
            ObjectType::ObjectLabelReferenceList => 40,
            ObjectType::ExternalObjectDefinition => 41,
            ObjectType::ExternalReferenceName => 42,
            ObjectType::ExternalObjectPointer => 43,
            ObjectType::Animation => 44,
            ObjectType::ColourPalette => 45,
            ObjectType::GraphicData => 46,
            ObjectType::WorkingSetSpecialControls => 47,
            ObjectType::ScaledGraphic => 48,
        }
    }
}

/// A Virtual Terminal version; later versions allow more object relationships.
#[derive(Clone, Copy, Debug, PartialEq, Eq, Hash, Structural)]
pub enum VtVersion {
    Version0,
    Version1,
    Version2,
    Version3,
    Version4,
    Version5,
    Version6,
}

impl VtVersion {
    /// The version number, 0 to 6.
    pub open spec fn spec_number(self) -> nat {
        match self {
            VtVersion::Version0 => 0,
            VtVersion::Version1 => 1,
            VtVersion::Version2 => 2,
            VtVersion::Version3 => 3,
            VtVersion::Version4 => 4,
            VtVersion::Version5 => 5,
            VtVersion::Version6 => 6,
        }
    }

    pub fn number(&self) -> (r: u8)
        ensures
            r == self.spec_number(),
    {
        match self {
            VtVersion::Version0 => 0,
            VtVersion::Version1 => 1,
            VtVersion::Version2 => 2,
            VtVersion::Version3 => 3,
            VtVersion::Version4 => 4,
            VtVersion::Version5 => 5,
            VtVersion::Version6 => 6,
        }
    }
}

/// The user-facing label of an object kind.
pub open spec fn type_label(t: ObjectType) -> Seq<char> {
    match t {
        ObjectType::WorkingSet => "Working Set"@,
        ObjectType::DataMask => "Data Mask"@,
        ObjectType::AlarmMask => "Alarm Screen"@,
        ObjectType::Container => "Container"@,
        ObjectType::SoftKeyMask => "Soft Key Mask"@,
        ObjectType::Key => "Key"@,
        ObjectType::Button => "Button"@,
        ObjectType::InputBoolean => "Checkbox"@,
        ObjectType::InputString => "Text Input"@,
        ObjectType::InputNumber => "Number Input"@,
        ObjectType::InputList => "List Input"@,
        ObjectType::OutputString => "Text Display"@,
        ObjectType::OutputNumber => "Number Display"@,
        ObjectType::OutputLine => "Line"@,
        ObjectType::OutputRectangle => "Rectangle"@,
        ObjectType::OutputEllipse => "Ellipse"@,
        ObjectType::OutputPolygon => "Polygon"@,
        ObjectType::OutputMeter => "Meter"@,
        ObjectType::OutputLinearBarGraph => "Linear Bar"@,
        ObjectType::OutputArchedBarGraph => "Arched Bar"@,
        ObjectType::PictureGraphic => "Picture"@,
        ObjectType::NumberVariable => "Number Variable"@,
        ObjectType::StringVariable => "String Variable"@,
        ObjectType::FontAttributes => "Font Style"@,
        ObjectType::LineAttributes => "Line Style"@,
        ObjectType::FillAttributes => "Fill Style"@,
        ObjectType::InputAttributes => "Input Style"@,
        ObjectType::ObjectPointer => "Object Reference"@,
        ObjectType::Macro => "Macro"@,
        ObjectType::AuxiliaryFunctionType1 => "Aux Function v1"@,
        ObjectType::AuxiliaryInputType1 => "Aux Input v1"@,
        ObjectType::AuxiliaryFunctionType2 => "Aux Function v2"@,
        ObjectType::AuxiliaryInputType2 => "Aux Input v2"@,
        ObjectType::AuxiliaryControlDesignatorType2 => "Aux Control v2"@,
        ObjectType::WindowMask => "Window Mask"@,
        ObjectType::KeyGroup => "Key Group"@,
        ObjectType::GraphicsContext => "Graphics Context"@,
        ObjectType::OutputList => "List Display"@,
        ObjectType::ExtendedInputAttributes => "Extended Input Style"@,
        ObjectType::ColourMap => "Colour Map"@,
        ObjectType::ObjectLabelReferenceList => "Label Reference List"@,
        ObjectType::ExternalObjectDefinition => "External Object Definition"@,
        ObjectType::ExternalReferenceName => "External Reference Name"@,
        ObjectType::ExternalObjectPointer => "External Object Pointer"@,
        ObjectType::Animation => "Animation"@,
        ObjectType::ColourPalette => "Colour Palette"@,
        ObjectType::GraphicData => "Graphic Data"@,
        ObjectType::WorkingSetSpecialControls => "Special Controls"@,
        ObjectType::ScaledGraphic => "Scaled Graphic"@,
    }
}

/// Every kind has a label that is not empty.
pub proof fn lemma_type_label_nonempty(t: ObjectType)
    ensures
        type_label(t).len() > 0,
{
    match t {
        ObjectType::WorkingSet => reveal_strlit("Working Set"),
        ObjectType::DataMask => reveal_strlit("Data Mask"),
        ObjectType::AlarmMask => reveal_strlit("Alarm Screen"),
        ObjectType::Container => reveal_strlit("Container"),
        ObjectType::SoftKeyMask => reveal_strlit("Soft Key Mask"),
        ObjectType::Key => reveal_strlit("Key"),
        ObjectType::Button => reveal_strlit("Button"),
        ObjectType::InputBoolean => reveal_strlit("Checkbox"),
        ObjectType::InputString => reveal_strlit("Text Input"),
        ObjectType::InputNumber => reveal_strlit("Number Input"),
        ObjectType::InputList => reveal_strlit("List Input"),
        ObjectType::OutputString => reveal_strlit("Text Display"),
        ObjectType::OutputNumber => reveal_strlit("Number Display"),
        ObjectType::OutputLine => reveal_strlit("Line"),
        ObjectType::OutputRectangle => reveal_strlit("Rectangle"),
        ObjectType::OutputEllipse => reveal_strlit("Ellipse"),
        ObjectType::OutputPolygon => reveal_strlit("Polygon"),
        ObjectType::OutputMeter => reveal_strlit("Meter"),
        ObjectType::OutputLinearBarGraph => reveal_strlit("Linear Bar"),
        ObjectType::OutputArchedBarGraph => reveal_strlit("Arched Bar"),
        ObjectType::PictureGraphic => reveal_strlit("Picture"),
        ObjectType::NumberVariable => reveal_strlit("Number Variable"),
        ObjectType::StringVariable => reveal_strlit("String Variable"),
        ObjectType::FontAttributes => reveal_strlit("Font Style"),
        ObjectType::LineAttributes => reveal_strlit("Line Style"),
        ObjectType::FillAttributes => reveal_strlit("Fill Style"),
        ObjectType::InputAttributes => reveal_strlit("Input Style"),
        ObjectType::ObjectPointer => reveal_strlit("Object Reference"),
        ObjectType::Macro => reveal_strlit("Macro"),
        ObjectType::AuxiliaryFunctionType1 => reveal_strlit("Aux Function v1"),
        ObjectType::AuxiliaryInputType1 => reveal_strlit("Aux Input v1"),
        ObjectType::AuxiliaryFunctionType2 => reveal_strlit("Aux Function v2"),
        ObjectType::AuxiliaryInputType2 => reveal_strlit("Aux Input v2"),
        ObjectType::AuxiliaryControlDesignatorType2 => reveal_strlit("Aux Control v2"),
        ObjectType::WindowMask => reveal_strlit("Window Mask"),
        ObjectType::KeyGroup => reveal_strlit("Key Group"),
        ObjectType::GraphicsContext => reveal_strlit("Graphics Context"),
        ObjectType::OutputList => reveal_strlit("List Display"),
        ObjectType::ExtendedInputAttributes => reveal_strlit("Extended Input Style"),
        ObjectType::ColourMap => reveal_strlit("Colour Map"),
        ObjectType::ObjectLabelReferenceList => reveal_strlit("Label Reference List"),
        ObjectType::ExternalObjectDefinition => reveal_strlit("External Object Definition"),
        ObjectType::ExternalReferenceName => reveal_strlit("External Reference Name"),
        ObjectType::ExternalObjectPointer => reveal_strlit("External Object Pointer"),
        ObjectType::Animation => reveal_strlit("Animation"),
        ObjectType::ColourPalette => reveal_strlit("Colour Palette"),
        ObjectType::GraphicData => reveal_strlit("Graphic Data"),
        ObjectType::WorkingSetSpecialControls => reveal_strlit("Special Controls"),
        ObjectType::ScaledGraphic => reveal_strlit("Scaled Graphic"),
    }
}

/// The identifier of an object kind, as it appears in default object names.
pub open spec fn type_ident(t: ObjectType) -> Seq<char> {
    match t {
        ObjectType::WorkingSet => "WorkingSet"@,
        ObjectType::DataMask => "DataMask"@,
        ObjectType::AlarmMask => "AlarmMask"@,
        ObjectType::Container => "Container"@,
        ObjectType::SoftKeyMask => "SoftKeyMask"@,
        ObjectType::Key => "Key"@,
        ObjectType::Button => "Button"@,
        ObjectType::InputBoolean => "InputBoolean"@,
        ObjectType::InputString => "InputString"@,
        ObjectType::InputNumber => "InputNumber"@,
        ObjectType::InputList => "InputList"@,
        ObjectType::OutputString => "OutputString"@,
        ObjectType::OutputNumber => "OutputNumber"@,
        ObjectType::OutputLine => "OutputLine"@,
        ObjectType::OutputRectangle => "OutputRectangle"@,
        ObjectType::OutputEllipse => "OutputEllipse"@,
        ObjectType::OutputPolygon => "OutputPolygon"@,
        ObjectType::OutputMeter => "OutputMeter"@,
        ObjectType::OutputLinearBarGraph => "OutputLinearBarGraph"@,
        ObjectType::OutputArchedBarGraph => "OutputArchedBarGraph"@,
        ObjectType::PictureGraphic => "PictureGraphic"@,
        ObjectType::NumberVariable => "NumberVariable"@,
        ObjectType::StringVariable => "StringVariable"@,
        ObjectType::FontAttributes => "FontAttributes"@,
        ObjectType::LineAttributes => "LineAttributes"@,
        ObjectType::FillAttributes => "FillAttributes"@,
        ObjectType::InputAttributes => "InputAttributes"@,
        ObjectType::ObjectPointer => "ObjectPointer"@,
        ObjectType::Macro => "Macro"@,
        ObjectType::AuxiliaryFunctionType1 => "AuxiliaryFunctionType1"@,
        ObjectType::AuxiliaryInputType1 => "AuxiliaryInputType1"@,
        ObjectType::AuxiliaryFunctionType2 => "AuxiliaryFunctionType2"@,
        ObjectType::AuxiliaryInputType2 => "AuxiliaryInputType2"@,
        ObjectType::AuxiliaryControlDesignatorType2 => "AuxiliaryControlDesignatorType2"@,
        ObjectType::WindowMask => "WindowMask"@,
        ObjectType::KeyGroup => "KeyGroup"@,
        ObjectType::GraphicsContext => "GraphicsContext"@,
        ObjectType::OutputList => "OutputList"@,
        ObjectType::ExtendedInputAttributes => "ExtendedInputAttributes"@,
        ObjectType::ColourMap => "ColourMap"@,
        ObjectType::ObjectLabelReferenceList => "ObjectLabelReferenceList"@,
        ObjectType::ExternalObjectDefinition => "ExternalObjectDefinition"@,
        ObjectType::ExternalReferenceName => "ExternalReferenceName"@,
        ObjectType::ExternalObjectPointer => "ExternalObjectPointer"@,
        ObjectType::Animation => "Animation"@,
        ObjectType::ColourPalette => "ColourPalette"@,
        ObjectType::GraphicData => "GraphicData"@,
        ObjectType::WorkingSetSpecialControls => "WorkingSetSpecialControls"@,
        ObjectType::ScaledGraphic => "ScaledGraphic"@,
    }
}

/// The user-facing label of an object kind.
pub fn get_object_type_name(object_type: ObjectType) -> (r: &'static str)
    ensures
        r@ == type_label(object_type),
{
    match object_type {
        ObjectType::WorkingSet => "Working Set",
        ObjectType::DataMask => "Data Mask",
        ObjectType::AlarmMask => "Alarm Screen",
        ObjectType::Container => "Container",
        ObjectType::SoftKeyMask => "Soft Key Mask",
        ObjectType::Key => "Key",
        ObjectType::Button => "Button",
        ObjectType::InputBoolean => "Checkbox",
        ObjectType::InputString => "Text Input",
        ObjectType::InputNumber => "Number Input",
        ObjectType::InputList => "List Input",
        ObjectType::OutputString => "Text Display",
        ObjectType::OutputNumber => "Number Display",
        ObjectType::OutputLine => "Line",
        ObjectType::OutputRectangle => "Rectangle",
        ObjectType::OutputEllipse => "Ellipse",
        ObjectType::OutputPolygon => "Polygon",
        ObjectType::OutputMeter => "Meter",
        ObjectType::OutputLinearBarGraph => "Linear Bar",
        ObjectType::OutputArchedBarGraph => "Arched Bar",
        ObjectType::PictureGraphic => "Picture",
        ObjectType::NumberVariable => "Number Variable",
        ObjectType::StringVariable => "String Variable",
        ObjectType::FontAttributes => "Font Style",
        ObjectType::LineAttributes => "Line Style",
        ObjectType::FillAttributes => "Fill Style",
        ObjectType::InputAttributes => "Input Style",
        ObjectType::ObjectPointer => "Object Reference",
        ObjectType::Macro => "Macro",
        ObjectType::AuxiliaryFunctionType1 => "Aux Function v1",
        ObjectType::AuxiliaryInputType1 => "Aux Input v1",
        ObjectType::AuxiliaryFunctionType2 => "Aux Function v2",
        ObjectType::AuxiliaryInputType2 => "Aux Input v2",
        ObjectType::AuxiliaryControlDesignatorType2 => "Aux Control v2",
        ObjectType::WindowMask => "Window Mask",
        ObjectType::KeyGroup => "Key Group",
        ObjectType::GraphicsContext => "Graphics Context",
        ObjectType::OutputList => "List Display",
        ObjectType::ExtendedInputAttributes => "Extended Input Style",
        ObjectType::ColourMap => "Colour Map",
        ObjectType::ObjectLabelReferenceList => "Label Reference List",
        ObjectType::ExternalObjectDefinition => "External Object Definition",
        ObjectType::ExternalReferenceName => "External Reference Name",
        ObjectType::ExternalObjectPointer => "External Object Pointer",
        ObjectType::Animation => "Animation",
        ObjectType::ColourPalette => "Colour Palette",
        ObjectType::GraphicData => "Graphic Data",
        ObjectType::WorkingSetSpecialControls => "Special Controls",
        ObjectType::ScaledGraphic => "Scaled Graphic",
    }
}

/// The identifier of an object kind, as it appears in default object names.
pub fn object_type_ident(object_type: ObjectType) -> (r: &'static str)
    ensures
        r@ == type_ident(object_type),
{
    match object_type {
        ObjectType::WorkingSet => "WorkingSet",
        ObjectType::DataMask => "DataMask",
        ObjectType::AlarmMask => "AlarmMask",
        ObjectType::Container => "Container",
        ObjectType::SoftKeyMask => "SoftKeyMask",
        ObjectType::Key => "Key",
        ObjectType::Button => "Button",
        ObjectType::InputBoolean => "InputBoolean",
        ObjectType::InputString => "InputString",
        ObjectType::InputNumber => "InputNumber",
        ObjectType::InputList => "InputList",
        ObjectType::OutputString => "OutputString",
        ObjectType::OutputNumber => "OutputNumber",
        ObjectType::OutputLine => "OutputLine",
        ObjectType::OutputRectangle => "OutputRectangle",
        ObjectType::OutputEllipse => "OutputEllipse",
        ObjectType::OutputPolygon => "OutputPolygon",
        ObjectType::OutputMeter => "OutputMeter",
        ObjectType::OutputLinearBarGraph => "OutputLinearBarGraph",
        ObjectType::OutputArchedBarGraph => "OutputArchedBarGraph",
        ObjectType::PictureGraphic => "PictureGraphic",
        ObjectType::NumberVariable => "NumberVariable",
        ObjectType::StringVariable => "StringVariable",
        ObjectType::FontAttributes => "FontAttributes",
        ObjectType::LineAttributes => "LineAttributes",
        ObjectType::FillAttributes => "FillAttributes",
        ObjectType::InputAttributes => "InputAttributes",
        ObjectType::ObjectPointer => "ObjectPointer",
        ObjectType::Macro => "Macro",
        ObjectType::AuxiliaryFunctionType1 => "AuxiliaryFunctionType1",
        ObjectType::AuxiliaryInputType1 => "AuxiliaryInputType1",
        ObjectType::AuxiliaryFunctionType2 => "AuxiliaryFunctionType2",
        ObjectType::AuxiliaryInputType2 => "AuxiliaryInputType2",
        ObjectType::AuxiliaryControlDesignatorType2 => "AuxiliaryControlDesignatorType2",
        ObjectType::WindowMask => "WindowMask",
        ObjectType::KeyGroup => "KeyGroup",
        ObjectType::GraphicsContext => "GraphicsContext",
        ObjectType::OutputList => "OutputList",
        ObjectType::ExtendedInputAttributes => "ExtendedInputAttributes",
        ObjectType::ColourMap => "ColourMap",
        ObjectType::ObjectLabelReferenceList => "ObjectLabelReferenceList",
        ObjectType::ExternalObjectDefinition => "ExternalObjectDefinition",
        ObjectType::ExternalReferenceName => "ExternalReferenceName",
        ObjectType::ExternalObjectPointer => "ExternalObjectPointer",
        ObjectType::Animation => "Animation",
        ObjectType::ColourPalette => "ColourPalette",
        ObjectType::GraphicData => "GraphicData",
        ObjectType::WorkingSetSpecialControls => "WorkingSetSpecialControls",
        ObjectType::ScaledGraphic => "ScaledGraphic",
    }
}

} // verus!
