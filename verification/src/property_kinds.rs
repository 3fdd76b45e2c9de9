//! Enumerations that libobs reports as raw numbers in property descriptions.
//!
//! Each converts from the raw number libobs uses (its position in the libobs
//! declaration) and keeps numbers that a newer libobs introduced as `Unknown`.
use vstd::prelude::*;

verus! {

/// How a number property is edited.
#[derive(Clone, Copy, Debug, PartialEq, Eq, Hash, Structural)]
pub enum NumberControl {
    Scroller,
    Slider,
    /// A raw value introduced by a newer libobs than this crate knows about.
    Unknown(i64),
}

impl NumberControl {
    /// The variant a raw libobs value stands for.
    pub open spec fn of_raw(raw: i64) -> Self {
        if raw == 0 {
            NumberControl::Scroller
        } else if raw == 1 {
            NumberControl::Slider
        } else {
            NumberControl::Unknown(raw)
        }
    }

    /// Converts a raw libobs value; values this crate does not name are kept.
    pub fn from_raw(raw: i64) -> (r: Self)
        ensures
            r == Self::of_raw(raw),
    {
        if raw == 0 {
            NumberControl::Scroller
        } else if raw == 1 {
            NumberControl::Slider
        } else {
            NumberControl::Unknown(raw)
        }
    }
}

/// How a text property is edited or shown.
#[derive(Clone, Copy, Debug, PartialEq, Eq, Hash, Structural)]
pub enum TextType {
    Default,
    Password,
    Multiline,
    Info,
    /// A raw value introduced by a newer libobs than this crate knows about.
    Unknown(i64),
}

impl TextType {
    /// The variant a raw libobs value stands for.
    pub open spec fn of_raw(raw: i64) -> Self {
        if raw == 0 {
            TextType::Default
        } else if raw == 1 {
            TextType::Password
        } else if raw == 2 {
            TextType::Multiline
        } else if raw == 3 {
            TextType::Info
        } else {
            TextType::Unknown(raw)
        }
    }

    /// Converts a raw libobs value; values this crate does not name are kept.
    pub fn from_raw(raw: i64) -> (r: Self)
        ensures
            r == Self::of_raw(raw),
    {
        if raw == 0 {
            TextType::Default
        } else if raw == 1 {
            TextType::Password
        } else if raw == 2 {
            TextType::Multiline
        } else if raw == 3 {
            TextType::Info
        } else {
            TextType::Unknown(raw)
        }
    }
}

/// The severity of an informational text property.
#[derive(Clone, Copy, Debug, PartialEq, Eq, Hash, Structural)]
pub enum TextInfoType {
    Normal,
    Warning,
    Error,
    /// A raw value introduced by a newer libobs than this crate knows about.
    Unknown(i64),
}

impl TextInfoType {
    /// The variant a raw libobs value stands for.
    pub open spec fn of_raw(raw: i64) -> Self {
        if raw == 0 {
            TextInfoType::Normal
        } else if raw == 1 {
            TextInfoType::Warning
        } else if raw == 2 {
            TextInfoType::Error
        } else {
            TextInfoType::Unknown(raw)
        }
    }

    /// Converts a raw libobs value; values this crate does not name are kept.
    pub fn from_raw(raw: i64) -> (r: Self)
        ensures
            r == Self::of_raw(raw),
    {
        if raw == 0 {
            TextInfoType::Normal
        } else if raw == 1 {
            TextInfoType::Warning
        } else if raw == 2 {
            TextInfoType::Error
        } else {
            TextInfoType::Unknown(raw)
        }
    }
}

/// What a path property selects.
#[derive(Clone, Copy, Debug, PartialEq, Eq, Hash, Structural)]
pub enum PathType {
    File,
    FileSave,
    Directory,
    /// A raw value introduced by a newer libobs than this crate knows about.
    Unknown(i64),
}

impl PathType {
    /// The variant a raw libobs value stands for.
    pub open spec fn of_raw(raw: i64) -> Self {
        if raw == 0 {
            PathType::File
        } else if raw == 1 {
            PathType::FileSave
        } else if raw == 2 {
            PathType::Directory
        } else {
            PathType::Unknown(raw)
        }
    }

    /// Converts a raw libobs value; values this crate does not name are kept.
    pub fn from_raw(raw: i64) -> (r: Self)
        ensures
            r == Self::of_raw(raw),
    {
        if raw == 0 {
            PathType::File
        } else if raw == 1 {
            PathType::FileSave
        } else if raw == 2 {
            PathType::Directory
        } else {
            PathType::Unknown(raw)
        }
    }
}

/// How a list property is presented.
#[derive(Clone, Copy, Debug, PartialEq, Eq, Hash, Structural)]
pub enum ListType {
    Invalid,
    Editable,
    List,
    Radio,
    /// A raw value introduced by a newer libobs than this crate knows about.
    Unknown(i64),
}

impl ListType {
    /// The variant a raw libobs value stands for.
    pub open spec fn of_raw(raw: i64) -> Self {
        if raw == 0 {
            ListType::Invalid
        } else if raw == 1 {
            ListType::Editable
        } else if raw == 2 {
            ListType::List
        } else if raw == 3 {
            ListType::Radio
        } else {
            ListType::Unknown(raw)
        }
    }

    /// Converts a raw libobs value; values this crate does not name are kept.
    pub fn from_raw(raw: i64) -> (r: Self)
        ensures
            r == Self::of_raw(raw),
    {
        if raw == 0 {
            ListType::Invalid
        } else if raw == 1 {
            ListType::Editable
        } else if raw == 2 {
            ListType::List
        } else if raw == 3 {
            ListType::Radio
        } else {
            ListType::Unknown(raw)
        }
    }
}

/// The type of the values of a list property.
#[derive(Clone, Copy, Debug, PartialEq, Eq, Hash, Structural)]
pub enum ListFormat {
    Invalid,
    Int,
    Float,
    String,
    Bool,
    /// A raw value introduced by a newer libobs than this crate knows about.
    Unknown(i64),
}

impl ListFormat {
    /// The variant a raw libobs value stands for.
    pub open spec fn of_raw(raw: i64) -> Self {
        if raw == 0 {
            ListFormat::Invalid
        } else if raw == 1 {
            ListFormat::Int
        } else if raw == 2 {
            ListFormat::Float
        } else if raw == 3 {
            ListFormat::String
        } else if raw == 4 {
            ListFormat::Bool
        } else {
            ListFormat::Unknown(raw)
        }
    }

    /// Converts a raw libobs value; values this crate does not name are kept.
    pub fn from_raw(raw: i64) -> (r: Self)
        ensures
            r == Self::of_raw(raw),
    {
        if raw == 0 {
            ListFormat::Invalid
        } else if raw == 1 {
            ListFormat::Int
        } else if raw == 2 {
            ListFormat::Float
        } else if raw == 3 {
            ListFormat::String
        } else if raw == 4 {
            ListFormat::Bool
        } else {
            ListFormat::Unknown(raw)
        }
    }
}

/// What a button property does.
#[derive(Clone, Copy, Debug, PartialEq, Eq, Hash, Structural)]
pub enum ButtonType {
    Default,
    Url,
    /// A raw value introduced by a newer libobs than this crate knows about.
    Unknown(i64),
}

impl ButtonType {
    /// The variant a raw libobs value stands for.
    pub open spec fn of_raw(raw: i64) -> Self {
        if raw == 0 {
            ButtonType::Default
        } else if raw == 1 {
            ButtonType::Url
        } else {
            ButtonType::Unknown(raw)
        }
    }

    /// Converts a raw libobs value; values this crate does not name are kept.
    pub fn from_raw(raw: i64) -> (r: Self)
        ensures
            r == Self::of_raw(raw),
    {
        if raw == 0 {
            ButtonType::Default
        } else if raw == 1 {
            ButtonType::Url
        } else {
            ButtonType::Unknown(raw)
        }
    }
}

/// What an editable list property holds.
#[derive(Clone, Copy, Debug, PartialEq, Eq, Hash, Structural)]
pub enum EditableListType {
    Strings,
    Files,
    FilesAndUrls,
    /// A raw value introduced by a newer libobs than this crate knows about.
    Unknown(i64),
}

impl EditableListType {
    /// The variant a raw libobs value stands for.
    pub open spec fn of_raw(raw: i64) -> Self {
        if raw == 0 {
            EditableListType::Strings
        } else if raw == 1 {
            EditableListType::Files
        } else if raw == 2 {
            EditableListType::FilesAndUrls
        } else {
            EditableListType::Unknown(raw)
        }
    }

    /// Converts a raw libobs value; values this crate does not name are kept.
    pub fn from_raw(raw: i64) -> (r: Self)
        ensures
            r == Self::of_raw(raw),
    {
        if raw == 0 {
            EditableListType::Strings
        } else if raw == 1 {
            EditableListType::Files
        } else if raw == 2 {
            EditableListType::FilesAndUrls
        } else {
            EditableListType::Unknown(raw)
        }
    }
}

/// How a property group is presented.
#[derive(Clone, Copy, Debug, PartialEq, Eq, Hash, Structural)]
pub enum GroupType {
    Invalid,
    Normal,
    Checkable,
    /// A raw value introduced by a newer libobs than this crate knows about.
    Unknown(i64),
}

impl GroupType {
    /// The variant a raw libobs value stands for.
    pub open spec fn of_raw(raw: i64) -> Self {
        if raw == 0 {
            GroupType::Invalid
        } else if raw == 1 {
            GroupType::Normal
        } else if raw == 2 {
            GroupType::Checkable
        } else {
            GroupType::Unknown(raw)
        }
    }

    /// Converts a raw libobs value; values this crate does not name are kept.
    pub fn from_raw(raw: i64) -> (r: Self)
        ensures
            r == Self::of_raw(raw),
    {
        if raw == 0 {
            GroupType::Invalid
        } else if raw == 1 {
            GroupType::Normal
        } else if raw == 2 {
            GroupType::Checkable
        } else {
            GroupType::Unknown(raw)
        }
    }
}

} // verus!
