//! Owned snapshots of the properties that libobs describes for a source, output, encoder or
//! service type, built from the raw values libobs reports for each property.
//!
//! libobs is asked for every value a property may have; which of them the snapshot keeps
//! depends on the property's raw type. Floating-point values are kept as the bits of their
//! IEEE 754 double representation.
use vstd::prelude::*;
use crate::capabilities::{FrameRateOption, FrameRateRange};
use crate::properties::{or_empty, RawListItem};
use crate::property_kinds::{
    ButtonType, EditableListType, GroupType, ListFormat, ListType, NumberControl, PathType,
    TextInfoType, TextType,
};

verus! {

/// The value of one entry of a list property.
#[derive(Clone, Debug, PartialEq)]
pub enum ListValue {
    String(String),
    Int(i64),
    /// A floating-point value, as the bits of its IEEE 754 double representation.
    Float(u64),
    Bool(bool),
    /// The list has a format that this crate does not know.
    UnknownFormat(i64),
}

/// One entry of a list property.
#[derive(Clone, Debug, PartialEq)]
pub struct ListItem {
    pub name: String,
    pub value: ListValue,
    pub disabled: bool,
}

/// What a property is and what it offers.
#[derive(Debug, PartialEq)]
pub enum PropertyKind {
    Invalid,
    Bool,
    Integer { min: i32, max: i32, step: i32, suffix: Option<String>, control: NumberControl },
    /// Bounds and step as the bits of their IEEE 754 double representation.
    Float { min: u64, max: u64, step: u64, suffix: Option<String>, control: NumberControl },
    Text { text_type: TextType, monospace: bool, info_type: TextInfoType, word_wrap: bool },
    Path { path_type: PathType, filter: Option<String>, default_path: Option<String> },
    List { list_type: ListType, format: ListFormat, items: Vec<ListItem> },
    Color,
    Button { button_type: ButtonType, url: Option<String> },
    Font,
    EditableList { list_type: EditableListType, filter: Option<String>, default_path: Option<String> },
    FrameRate { options: Vec<FrameRateOption>, ranges: Vec<FrameRateRange> },
    Group { group_type: GroupType, properties: Vec<PropertyMetadata> },
    ColorAlpha,
    /// A property type introduced by a newer libobs than this crate knows about.
    Unknown(i64),
}

/// One property of a type's property tree.
#[derive(Debug, PartialEq)]
pub struct PropertyMetadata {
    pub name: String,
    pub description: Option<String>,
    pub long_description: Option<String>,
    pub enabled: bool,
    pub visible: bool,
    pub kind: PropertyKind,
}

/// Every value libobs reports for one property, whatever its type. `group_properties` is
/// the snapshot of a group's content (empty where libobs reports none).
pub struct RawPropertyFields {
    pub int_min: i32,
    pub int_max: i32,
    pub int_step: i32,
    pub int_suffix: Option<String>,
    pub int_type: i64,
    pub float_min: u64,
    pub float_max: u64,
    pub float_step: u64,
    pub float_suffix: Option<String>,
    pub float_type: i64,
    pub text_type: i64,
    pub text_monospace: bool,
    pub text_info_type: i64,
    pub text_word_wrap: bool,
    pub path_type: i64,
    pub path_filter: Option<String>,
    pub path_default_path: Option<String>,
    pub list_type: i64,
    pub list_format: i64,
    pub list_items: Vec<RawListItem>,
    pub button_type: i64,
    pub button_url: Option<String>,
    pub editable_list_type: i64,
    pub editable_list_filter: Option<String>,
    pub editable_list_default_path: Option<String>,
    pub frame_rate_options: Vec<FrameRateOption>,
    pub frame_rate_ranges: Vec<FrameRateRange>,
    pub group_type: i64,
    pub group_properties: Vec<PropertyMetadata>,
}

/// `item` is raw entry `raw` of a list whose raw format is `format_raw`: a missing name or
/// string is empty, and the value is read in the list's format.
pub open spec fn is_list_entry(item: ListItem, raw: RawListItem, format_raw: i64) -> bool {
    &&& item.name@ == or_empty(raw.name)
    &&& item.disabled == raw.disabled
    &&& if format_raw == 3 {
        item.value matches ListValue::String(s) && s@ == or_empty(raw.string_value)
    } else if format_raw == 1 {
        item.value == ListValue::Int(raw.int_value)
    } else if format_raw == 2 {
        item.value == ListValue::Float(raw.float_bits)
    } else if format_raw == 4 {
        item.value == ListValue::Bool(raw.bool_value)
    } else {
        item.value == ListValue::UnknownFormat(format_raw)
    }
}

/// `k` is what a property of raw type `raw_type` is, given what libobs reports for it: the
/// raw type picks the variant (as `obs_property_type` numbers them) and the variant keeps
/// the values of its type, with raw enumeration numbers converted.
pub open spec fn is_kind_snapshot(k: PropertyKind, raw_type: i64, f: RawPropertyFields) -> bool {
    if raw_type == 0 {
        k == PropertyKind::Invalid
    } else if raw_type == 1 {
        k == PropertyKind::Bool
    } else if raw_type == 2 {
        k == (PropertyKind::Integer {
            min: f.int_min,
            max: f.int_max,
            step: f.int_step,
            suffix: f.int_suffix,
            control: NumberControl::of_raw(f.int_type),
        })
    } else if raw_type == 3 {
        k == (PropertyKind::Float {
            min: f.float_min,
            max: f.float_max,
            step: f.float_step,
            suffix: f.float_suffix,
            control: NumberControl::of_raw(f.float_type),
        })
    } else if raw_type == 4 {
        k == (PropertyKind::Text {
            text_type: TextType::of_raw(f.text_type),
            monospace: f.text_monospace,
            info_type: TextInfoType::of_raw(f.text_info_type),
            word_wrap: f.text_word_wrap,
        })
    } else if raw_type == 5 {
        k == (PropertyKind::Path {
            path_type: PathType::of_raw(f.path_type),
            filter: f.path_filter,
            default_path: f.path_default_path,
        })
    } else if raw_type == 6 {
        &&& k matches PropertyKind::List { list_type, format, items }
        &&& list_type == ListType::of_raw(f.list_type)
        &&& format == ListFormat::of_raw(f.list_format)
        &&& items@.len() == f.list_items@.len()
        &&& forall|i: int|
            0 <= i < items@.len() ==> is_list_entry(
                #[trigger] items@[i],
                f.list_items@[i],
                f.list_format,
            )
    } else if raw_type == 7 {
        k == PropertyKind::Color
    } else if raw_type == 8 {
        k == (PropertyKind::Button {
            button_type: ButtonType::of_raw(f.button_type),
            url: f.button_url,
        })
    } else if raw_type == 9 {
        k == PropertyKind::Font
    } else if raw_type == 10 {
        k == (PropertyKind::EditableList {
            list_type: EditableListType::of_raw(f.editable_list_type),
            filter: f.editable_list_filter,
            default_path: f.editable_list_default_path,
        })
    } else if raw_type == 11 {
        k == (PropertyKind::FrameRate {
            options: f.frame_rate_options,
            ranges: f.frame_rate_ranges,
        })
    } else if raw_type == 12 {
        k == (PropertyKind::Group {
            group_type: GroupType::of_raw(f.group_type),
            properties: f.group_properties,
        })
    } else if raw_type == 13 {
        k == PropertyKind::ColorAlpha
    } else {
        k == PropertyKind::Unknown(raw_type)
    }
}

fn text_or_default(s: Option<String>) -> (r: String)
    ensures
        r@ == or_empty(s),
{
    match s {
        Some(t) => t,
        None => String::new(),
    }
}

fn list_entries(raw: Vec<RawListItem>, format_raw: i64) -> (r: Vec<ListItem>)
    ensures
        r@.len() == raw@.len(),
        forall|i: int| 0 <= i < r@.len() ==> is_list_entry(#[trigger] r@[i], raw@[i], format_raw),
{
    let mut items: Vec<ListItem> = Vec::new();
    let mut i: usize = 0;
    while i < raw.len()
        invariant
            i <= raw@.len(),
            items@.len() == i,
            forall|k: int| 0 <= k < i ==> is_list_entry(#[trigger] items@[k], raw@[k], format_raw),
        decreases raw.len() - i,
    {
        let entry = &raw[i];
        let name = match &entry.name {
            Some(n) => n.clone(),
            None => String::new(),
        };
        let value = if format_raw == 3 {
            match &entry.string_value {
                Some(s) => ListValue::String(s.clone()),
                None => ListValue::String(String::new()),
            }
        } else if format_raw == 1 {
            ListValue::Int(entry.int_value)
        } else if format_raw == 2 {
            ListValue::Float(entry.float_bits)
        } else if format_raw == 4 {
            ListValue::Bool(entry.bool_value)
        } else {
            ListValue::UnknownFormat(format_raw)
        };
        items.push(ListItem { name, value, disabled: entry.disabled });
        i = i + 1;
    }
    items
}

/// What a property of raw type `raw_type` is, given every value libobs reports for it.
pub fn snapshot_property_kind(raw_type: i64, fields: RawPropertyFields) -> (r: PropertyKind)
    ensures
        is_kind_snapshot(r, raw_type, fields),
{
    let ghost f = fields;
    let RawPropertyFields {
        int_min,
        int_max,
        int_step,
        int_suffix,
        int_type,
        float_min,
        float_max,
        float_step,
        float_suffix,
        float_type,
        text_type,
        text_monospace,
        text_info_type,
        text_word_wrap,
        path_type,
        path_filter,
        path_default_path,
        list_type,
        list_format,
        list_items,
        button_type,
        button_url,
        editable_list_type,
        editable_list_filter,
        editable_list_default_path,
        frame_rate_options,
        frame_rate_ranges,
        group_type,
        group_properties,
    } = fields;
    if raw_type == 0 {
        PropertyKind::Invalid
    } else if raw_type == 1 {
        PropertyKind::Bool
    } else if raw_type == 2 {
        PropertyKind::Integer {
            min: int_min,
            max: int_max,
            step: int_step,
            suffix: int_suffix,
            control: NumberControl::from_raw(int_type),
        }
    } else if raw_type == 3 {
        PropertyKind::Float {
            min: float_min,
            max: float_max,
            step: float_step,
            suffix: float_suffix,
            control: NumberControl::from_raw(float_type),
        }
    } else if raw_type == 4 {
        PropertyKind::Text {
            text_type: TextType::from_raw(text_type),
            monospace: text_monospace,
            info_type: TextInfoType::from_raw(text_info_type),
            word_wrap: text_word_wrap,
        }
    } else if raw_type == 5 {
        PropertyKind::Path {
            path_type: PathType::from_raw(path_type),
            filter: path_filter,
            default_path: path_default_path,
        }
    } else if raw_type == 6 {
        PropertyKind::List {
            list_type: ListType::from_raw(list_type),
            format: ListFormat::from_raw(list_format),
            items: list_entries(list_items, list_format),
        }
    } else if raw_type == 7 {
        PropertyKind::Color
    } else if raw_type == 8 {
        PropertyKind::Button { button_type: ButtonType::from_raw(button_type), url: button_url }
    } else if raw_type == 9 {
        PropertyKind::Font
    } else if raw_type == 10 {
        PropertyKind::EditableList {
            list_type: EditableListType::from_raw(editable_list_type),
            filter: editable_list_filter,
            default_path: editable_list_default_path,
        }
    } else if raw_type == 11 {
        PropertyKind::FrameRate { options: frame_rate_options, ranges: frame_rate_ranges }
    } else if raw_type == 12 {
        PropertyKind::Group { group_type: GroupType::from_raw(group_type), properties: group_properties }
    } else if raw_type == 13 {
        PropertyKind::ColorAlpha
    } else {
        PropertyKind::Unknown(raw_type)
    }
}

/// One property of a snapshot: its name (empty where libobs reports none), its texts and
/// state, and what it is.
pub fn snapshot_property(
    name: Option<String>,
    description: Option<String>,
    long_description: Option<String>,
    enabled: bool,
    visible: bool,
    raw_type: i64,
    fields: RawPropertyFields,
) -> (r: PropertyMetadata)
    ensures
        r.name@ == or_empty(name),
        r.description == description,
        r.long_description == long_description,
        r.enabled == enabled,
        r.visible == visible,
        is_kind_snapshot(r.kind, raw_type, fields),
{
    PropertyMetadata {
        name: text_or_default(name),
        description,
        long_description,
        enabled,
        visible,
        kind: snapshot_property_kind(raw_type, fields),
    }
}

/// A list property's entries carry values of the list's format: libobs's integer format
/// (`OBS_COMBO_FORMAT_INT`, number 1) gives each entry its integer value, the floating-point
/// format (number 2) its floating-point bits, the string format (number 3) its string
/// (empty where libobs has none), the boolean format (number 4) its flag; any other
/// number gives every entry an unknown-format value carrying that number.
pub proof fn law_list_values_follow_the_format(k: PropertyKind, f: RawPropertyFields)
    requires
        is_kind_snapshot(k, 6, f),
    ensures
        k matches PropertyKind::List { list_type, format, items } && {
            &&& format == ListFormat::of_raw(f.list_format)
            &&& list_type == ListType::of_raw(f.list_type)
            &&& items@.len() == f.list_items@.len()
            &&& forall|i: int|
                0 <= i < items@.len() ==> {
                    let v = (#[trigger] items@[i]).value;
                    let raw = f.list_items@[i];
                    &&& items@[i].disabled == raw.disabled
                    &&& items@[i].name@ == or_empty(raw.name)
                    &&& (f.list_format == 1 || format == ListFormat::Int) ==> v == ListValue::Int(raw.int_value)
                    &&& (f.list_format == 2 || format == ListFormat::Float) ==> v == ListValue::Float(raw.float_bits)
                    &&& (f.list_format == 4 || format == ListFormat::Bool) ==> v == ListValue::Bool(raw.bool_value)
                    &&& (f.list_format == 3 || format == ListFormat::String) ==> (v matches ListValue::String(t)
                        && t@ == or_empty(raw.string_value))
                    &&& !(1 <= f.list_format <= 4) ==> v == ListValue::UnknownFormat(f.list_format)
                }
        },
{
}

} // verus!
