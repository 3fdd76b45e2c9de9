//! The enumerations of libobs property descriptions, converted from the numbers libobs
//! reports. A number that libobs does not define for an enumeration converts to nothing.
use vstd::prelude::*;

verus! {

/// The type of a property, as `obs_property_type` numbers it.
#[derive(Clone, Copy, Debug, PartialEq, Eq, Hash, Structural)]
pub enum ObsPropertyType {
    Invalid,
    Bool,
    Int,
    Float,
    Text,
    Path,
    List,
    Color,
    Button,
    Font,
    EditableList,
    FrameRate,
    Group,
    ColorAlpha,
}

/// The variant that raw number `raw` stands for, if any.
pub open spec fn property_type_of(raw: i64) -> Option<ObsPropertyType> {
    if raw == 0 {
        Some(ObsPropertyType::Invalid)
    } else if raw == 1 {
        Some(ObsPropertyType::Bool)
    } else if raw == 2 {
        Some(ObsPropertyType::Int)
    } else if raw == 3 {
        Some(ObsPropertyType::Float)
    } else if raw == 4 {
        Some(ObsPropertyType::Text)
    } else if raw == 5 {
        Some(ObsPropertyType::Path)
    } else if raw == 6 {
        Some(ObsPropertyType::List)
    } else if raw == 7 {
        Some(ObsPropertyType::Color)
    } else if raw == 8 {
        Some(ObsPropertyType::Button)
    } else if raw == 9 {
        Some(ObsPropertyType::Font)
    } else if raw == 10 {
        Some(ObsPropertyType::EditableList)
    } else if raw == 11 {
        Some(ObsPropertyType::FrameRate)
    } else if raw == 12 {
        Some(ObsPropertyType::Group)
    } else if raw == 13 {
        Some(ObsPropertyType::ColorAlpha)
    } else {
        None
    }
}

impl ObsPropertyType {
    /// Converts a raw libobs number; `None` for a number libobs does not define.
    pub fn from_raw(raw: i64) -> (r: Option<Self>)
        ensures
            r == property_type_of(raw),
    {
        if raw == 0 {
            Some(ObsPropertyType::Invalid)
        } else if raw == 1 {
            Some(ObsPropertyType::Bool)
        } else if raw == 2 {
            Some(ObsPropertyType::Int)
        } else if raw == 3 {
            Some(ObsPropertyType::Float)
        } else if raw == 4 {
            Some(ObsPropertyType::Text)
        } else if raw == 5 {
            Some(ObsPropertyType::Path)
        } else if raw == 6 {
            Some(ObsPropertyType::List)
        } else if raw == 7 {
            Some(ObsPropertyType::Color)
        } else if raw == 8 {
            Some(ObsPropertyType::Button)
        } else if raw == 9 {
            Some(ObsPropertyType::Font)
        } else if raw == 10 {
            Some(ObsPropertyType::EditableList)
        } else if raw == 11 {
            Some(ObsPropertyType::FrameRate)
        } else if raw == 12 {
            Some(ObsPropertyType::Group)
        } else if raw == 13 {
            Some(ObsPropertyType::ColorAlpha)
        } else {
            None
        }
    }

    /// The variant's name, such as `EditableList`.
    pub fn name(&self) -> (r: &'static str)
        ensures
            r@ == property_type_name(*self),
    {
        match self {
            ObsPropertyType::Invalid => "Invalid",
            ObsPropertyType::Bool => "Bool",
            ObsPropertyType::Int => "Int",
            ObsPropertyType::Float => "Float",
            ObsPropertyType::Text => "Text",
            ObsPropertyType::Path => "Path",
            ObsPropertyType::List => "List",
            ObsPropertyType::Color => "Color",
            ObsPropertyType::Button => "Button",
            ObsPropertyType::Font => "Font",
            ObsPropertyType::EditableList => "EditableList",
            ObsPropertyType::FrameRate => "FrameRate",
            ObsPropertyType::Group => "Group",
            ObsPropertyType::ColorAlpha => "ColorAlpha",
        }
    }
}

/// The name of a property type's variant.
pub open spec fn property_type_name(t: ObsPropertyType) -> Seq<char> {
    match t {
        ObsPropertyType::Invalid => "Invalid"@,
        ObsPropertyType::Bool => "Bool"@,
        ObsPropertyType::Int => "Int"@,
        ObsPropertyType::Float => "Float"@,
        ObsPropertyType::Text => "Text"@,
        ObsPropertyType::Path => "Path"@,
        ObsPropertyType::List => "List"@,
        ObsPropertyType::Color => "Color"@,
        ObsPropertyType::Button => "Button"@,
        ObsPropertyType::Font => "Font"@,
        ObsPropertyType::EditableList => "EditableList"@,
        ObsPropertyType::FrameRate => "FrameRate"@,
        ObsPropertyType::Group => "Group"@,
        ObsPropertyType::ColorAlpha => "ColorAlpha"@,
    }
}

/// How a number property is edited, as `obs_number_type` numbers it.
#[derive(Clone, Copy, Debug, PartialEq, Eq, Hash, Structural)]
pub enum ObsNumberType {
    Scroller,
    Slider,
}

/// The variant that raw number `raw` stands for, if any.
pub open spec fn number_type_of(raw: i64) -> Option<ObsNumberType> {
    if raw == 0 {
        Some(ObsNumberType::Scroller)
    } else if raw == 1 {
        Some(ObsNumberType::Slider)
    } else {
        None
    }
}

impl ObsNumberType {
    /// Converts a raw libobs number; `None` for a number libobs does not define.
    pub fn from_raw(raw: i64) -> (r: Option<Self>)
        ensures
            r == number_type_of(raw),
    {
        if raw == 0 {
            Some(ObsNumberType::Scroller)
        } else if raw == 1 {
            Some(ObsNumberType::Slider)
        } else {
            None
        }
    }
}

/// How a text property is edited or shown, as `obs_text_type` numbers it.
#[derive(Clone, Copy, Debug, PartialEq, Eq, Hash, Structural)]
pub enum ObsTextType {
    Default,
    Password,
    Multiline,
    Info,
}

/// The variant that raw number `raw` stands for, if any.
pub open spec fn text_type_of(raw: i64) -> Option<ObsTextType> {
    if raw == 0 {
        Some(ObsTextType::Default)
    } else if raw == 1 {
        Some(ObsTextType::Password)
    } else if raw == 2 {
        Some(ObsTextType::Multiline)
    } else if raw == 3 {
        Some(ObsTextType::Info)
    } else {
        None
    }
}

impl ObsTextType {
    /// Converts a raw libobs number; `None` for a number libobs does not define.
    pub fn from_raw(raw: i64) -> (r: Option<Self>)
        ensures
            r == text_type_of(raw),
    {
        if raw == 0 {
            Some(ObsTextType::Default)
        } else if raw == 1 {
            Some(ObsTextType::Password)
        } else if raw == 2 {
            Some(ObsTextType::Multiline)
        } else if raw == 3 {
            Some(ObsTextType::Info)
        } else {
            None
        }
    }
}

/// The severity of an informational text property, as `obs_text_info_type` numbers it.
#[derive(Clone, Copy, Debug, PartialEq, Eq, Hash, Structural)]
pub enum ObsTextInfoType {
    Normal,
    Warning,
    Error,
}

/// The variant that raw number `raw` stands for, if any.
pub open spec fn text_info_type_of(raw: i64) -> Option<ObsTextInfoType> {
    if raw == 0 {
        Some(ObsTextInfoType::Normal)
    } else if raw == 1 {
        Some(ObsTextInfoType::Warning)
    } else if raw == 2 {
        Some(ObsTextInfoType::Error)
    } else {
        None
    }
}

impl ObsTextInfoType {
    /// Converts a raw libobs number; `None` for a number libobs does not define.
    pub fn from_raw(raw: i64) -> (r: Option<Self>)
        ensures
            r == text_info_type_of(raw),
    {
        if raw == 0 {
            Some(ObsTextInfoType::Normal)
        } else if raw == 1 {
            Some(ObsTextInfoType::Warning)
        } else if raw == 2 {
            Some(ObsTextInfoType::Error)
        } else {
            None
        }
    }
}

/// How a list property is presented, as `obs_combo_type` numbers it.
#[derive(Clone, Copy, Debug, PartialEq, Eq, Hash, Structural)]
pub enum ObsComboType {
    Invalid,
    Editable,
    List,
    Radio,
}

/// The variant that raw number `raw` stands for, if any.
pub open spec fn combo_type_of(raw: i64) -> Option<ObsComboType> {
    if raw == 0 {
        Some(ObsComboType::Invalid)
    } else if raw == 1 {
        Some(ObsComboType::Editable)
    } else if raw == 2 {
        Some(ObsComboType::List)
    } else if raw == 3 {
        Some(ObsComboType::Radio)
    } else {
        None
    }
}

impl ObsComboType {
    /// Converts a raw libobs number; `None` for a number libobs does not define.
    pub fn from_raw(raw: i64) -> (r: Option<Self>)
        ensures
            r == combo_type_of(raw),
    {
        if raw == 0 {
            Some(ObsComboType::Invalid)
        } else if raw == 1 {
            Some(ObsComboType::Editable)
        } else if raw == 2 {
            Some(ObsComboType::List)
        } else if raw == 3 {
            Some(ObsComboType::Radio)
        } else {
            None
        }
    }
}

/// The type of a list property's values, as `obs_combo_format` numbers it.
#[derive(Clone, Copy, Debug, PartialEq, Eq, Hash, Structural)]
pub enum ObsComboFormat {
    Invalid,
    Int,
    Float,
    String,
    Bool,
}

/// The variant that raw number `raw` stands for, if any.
pub open spec fn combo_format_of(raw: i64) -> Option<ObsComboFormat> {
    if raw == 0 {
        Some(ObsComboFormat::Invalid)
    } else if raw == 1 {
        Some(ObsComboFormat::Int)
    } else if raw == 2 {
        Some(ObsComboFormat::Float)
    } else if raw == 3 {
        Some(ObsComboFormat::String)
    } else if raw == 4 {
        Some(ObsComboFormat::Bool)
    } else {
        None
    }
}

impl ObsComboFormat {
    /// Converts a raw libobs number; `None` for a number libobs does not define.
    pub fn from_raw(raw: i64) -> (r: Option<Self>)
        ensures
            r == combo_format_of(raw),
    {
        if raw == 0 {
            Some(ObsComboFormat::Invalid)
        } else if raw == 1 {
            Some(ObsComboFormat::Int)
        } else if raw == 2 {
            Some(ObsComboFormat::Float)
        } else if raw == 3 {
            Some(ObsComboFormat::String)
        } else if raw == 4 {
            Some(ObsComboFormat::Bool)
        } else {
            None
        }
    }
}

/// What a path property selects, as `obs_path_type` numbers it.
#[derive(Clone, Copy, Debug, PartialEq, Eq, Hash, Structural)]
pub enum ObsPathType {
    File,
    FileSave,
    Directory,
}

/// The variant that raw number `raw` stands for, if any.
pub open spec fn path_type_of(raw: i64) -> Option<ObsPathType> {
    if raw == 0 {
        Some(ObsPathType::File)
    } else if raw == 1 {
        Some(ObsPathType::FileSave)
    } else if raw == 2 {
        Some(ObsPathType::Directory)
    } else {
        None
    }
}

impl ObsPathType {
    /// Converts a raw libobs number; `None` for a number libobs does not define.
    pub fn from_raw(raw: i64) -> (r: Option<Self>)
        ensures
            r == path_type_of(raw),
    {
        if raw == 0 {
            Some(ObsPathType::File)
        } else if raw == 1 {
            Some(ObsPathType::FileSave)
        } else if raw == 2 {
            Some(ObsPathType::Directory)
        } else {
            None
        }
    }
}

/// What a button property does, as `obs_button_type` numbers it.
#[derive(Clone, Copy, Debug, PartialEq, Eq, Hash, Structural)]
pub enum ObsButtonType {
    Default,
    Url,
}

/// The variant that raw number `raw` stands for, if any.
pub open spec fn button_type_of(raw: i64) -> Option<ObsButtonType> {
    if raw == 0 {
        Some(ObsButtonType::Default)
    } else if raw == 1 {
        Some(ObsButtonType::Url)
    } else {
        None
    }
}

impl ObsButtonType {
    /// Converts a raw libobs number; `None` for a number libobs does not define.
    pub fn from_raw(raw: i64) -> (r: Option<Self>)
        ensures
            r == button_type_of(raw),
    {
        if raw == 0 {
            Some(ObsButtonType::Default)
        } else if raw == 1 {
            Some(ObsButtonType::Url)
        } else {
            None
        }
    }
}

/// What an editable list property holds, as `obs_editable_list_type` numbers it.
#[derive(Clone, Copy, Debug, PartialEq, Eq, Hash, Structural)]
pub enum ObsEditableListType {
    Strings,
    Files,
    FilesAndUrls,
}

/// The variant that raw number `raw` stands for, if any.
pub open spec fn editable_list_type_of(raw: i64) -> Option<ObsEditableListType> {
    if raw == 0 {
        Some(ObsEditableListType::Strings)
    } else if raw == 1 {
        Some(ObsEditableListType::Files)
    } else if raw == 2 {
        Some(ObsEditableListType::FilesAndUrls)
    } else {
        None
    }
}

impl ObsEditableListType {
    /// Converts a raw libobs number; `None` for a number libobs does not define.
    pub fn from_raw(raw: i64) -> (r: Option<Self>)
        ensures
            r == editable_list_type_of(raw),
    {
        if raw == 0 {
            Some(ObsEditableListType::Strings)
        } else if raw == 1 {
            Some(ObsEditableListType::Files)
        } else if raw == 2 {
            Some(ObsEditableListType::FilesAndUrls)
        } else {
            None
        }
    }
}

} // verus!
