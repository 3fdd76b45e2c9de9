//! Property descriptions built from the raw values that libobs reports for a property.
//!
//! Each description checks that the property has the type it describes and converts the
//! raw enumeration numbers; a property of another type, or a number that libobs does not
//! define, is refused with an error that says which.
use vstd::prelude::*;
use crate::error::ObsError;
use crate::property_types::{
    button_type_of, combo_format_of, combo_type_of, editable_list_type_of, number_type_of,
    path_type_of, property_type_name, property_type_of, text_info_type_of, text_type_of,
    ObsButtonType, ObsComboFormat, ObsComboType, ObsEditableListType, ObsNumberType, ObsPathType,
    ObsPropertyType, ObsTextInfoType, ObsTextType,
};

verus! {

/// `e` says that a property is not of type `expected`.
pub open spec fn is_type_error(e: ObsError, expected: ObsPropertyType) -> bool {
    e matches ObsError::InvocationError(m) && m@ == "Property is not of type "@ + property_type_name(
        expected,
    )
}

/// `e` says that the raw value of `field` is no variant of enumeration `enum_name`.
pub open spec fn is_conversion_error(e: ObsError, field: Seq<char>, enum_name: Seq<char>) -> bool {
    e matches ObsError::EnumConversionError(m) && m@ == "Failed to convert "@ + field + " to enum "@
        + enum_name
}

/// Checks that a property whose raw type is `raw_type` has type `expected`.
pub fn check_property_type(raw_type: i64, expected: ObsPropertyType) -> (r: Result<(), ObsError>)
    ensures
        r is Ok <==> property_type_of(raw_type) == Some(expected),
        r is Err ==> is_type_error(r->Err_0, expected),
{
    match ObsPropertyType::from_raw(raw_type) {
        Some(t) => {
            if t == expected {
                return Ok(());
            }
        },
        None => {},
    }
    let mut m = String::from_str("Property is not of type ");
    m.append(expected.name());
    Err(ObsError::InvocationError(m))
}

fn conversion_failure(field: &str, enum_name: &str) -> (e: ObsError)
    ensures
        is_conversion_error(e, field@, enum_name@),
{
    let mut m = String::from_str("Failed to convert ");
    m.append(field);
    m.append(" to enum ");
    m.append(enum_name);
    ObsError::EnumConversionError(m)
}

/// A text that libobs reports as an optional string: an empty text counts as none.
pub open spec fn non_empty(s: Option<String>) -> Option<String> {
    match s {
        Some(t) => if t@.len() == 0 {
            None
        } else {
            Some(t)
        },
        None => None,
    }
}

/// An optional text, or the empty text where there is none.
pub open spec fn or_empty(s: Option<String>) -> Seq<char> {
    match s {
        Some(t) => t@,
        None => Seq::empty(),
    }
}

fn keep_non_empty(s: Option<String>) -> (r: Option<String>)
    ensures
        r == non_empty(s),
{
    match s {
        Some(t) => {
            if t.as_str().is_empty() {
                None
            } else {
                Some(t)
            }
        },
        None => None,
    }
}

fn text_or_empty(s: Option<String>) -> (r: String)
    ensures
        r@ == or_empty(s),
{
    match s {
        Some(t) => t,
        None => String::new(),
    }
}

/// A button property.
#[derive(Debug, Clone)]
pub struct ObsButtonProperty {
    name: String,
    description: Option<String>,
    button_type: ObsButtonType,
    url: Option<String>,
}

impl ObsButtonProperty {
    pub closed spec fn spec_name(&self) -> String {
        self.name
    }

    pub closed spec fn spec_description(&self) -> Option<String> {
        self.description
    }

    pub closed spec fn spec_button_type(&self) -> ObsButtonType {
        self.button_type
    }

    pub closed spec fn spec_url(&self) -> Option<String> {
        self.url
    }

    /// The description of a button property from what libobs reports for it: its raw type,
    /// its raw button type and its URL (an empty URL counts as none).
    pub fn from_raw(
        name: String,
        description: Option<String>,
        raw_type: i64,
        raw_button_type: i64,
        url: Option<String>,
    ) -> (r: Result<Self, ObsError>)
        ensures
            property_type_of(raw_type) != Some(ObsPropertyType::Button) ==> r is Err
                && is_type_error(r->Err_0, ObsPropertyType::Button),
            property_type_of(raw_type) == Some(ObsPropertyType::Button) && button_type_of(
                raw_button_type,
            ) is None ==> r is Err && is_conversion_error(
                r->Err_0,
                "button_type"@,
                "ObsButtonType"@,
            ),
            r is Ok <==> property_type_of(raw_type) == Some(ObsPropertyType::Button)
                && button_type_of(raw_button_type) is Some,
            r is Ok ==> {
                let p = r->Ok_0;
                &&& p.spec_name() == name
                &&& p.spec_description() == description
                &&& Some(p.spec_button_type()) == button_type_of(raw_button_type)
                &&& p.spec_url() == non_empty(url)
            },
    {
        check_property_type(raw_type, ObsPropertyType::Button)?;
        let url = keep_non_empty(url);
        let button_type = match ObsButtonType::from_raw(raw_button_type) {
            Some(t) => t,
            None => return Err(conversion_failure("button_type", "ObsButtonType")),
        };
        Ok(ObsButtonProperty { name, description, button_type, url })
    }

    pub fn name(&self) -> (r: &str)
        ensures
            r@ == self.spec_name()@,
    {
        self.name.as_str()
    }

    pub fn description(&self) -> (r: &Option<String>)
        ensures
            *r == self.spec_description(),
    {
        &self.description
    }

    pub fn button_type(&self) -> (r: ObsButtonType)
        ensures
            r == self.spec_button_type(),
    {
        self.button_type
    }

    pub fn url(&self) -> (r: &Option<String>)
        ensures
            *r == self.spec_url(),
    {
        &self.url
    }
}

/// A path property.
#[derive(Debug, Clone)]
pub struct ObsPathProperty {
    name: String,
    description: Option<String>,
    path_type: ObsPathType,
    filter: String,
    default_path: String,
}

impl ObsPathProperty {
    pub closed spec fn spec_name(&self) -> String {
        self.name
    }

    pub closed spec fn spec_description(&self) -> Option<String> {
        self.description
    }

    pub closed spec fn spec_path_type(&self) -> ObsPathType {
        self.path_type
    }

    pub closed spec fn spec_filter(&self) -> Seq<char> {
        self.filter@
    }

    pub closed spec fn spec_default_path(&self) -> Seq<char> {
        self.default_path@
    }

    /// The description of a path property from what libobs reports for it: its raw type,
    /// its raw path type, its file filter and its default path (a missing text is empty).
    pub fn from_raw(
        name: String,
        description: Option<String>,
        raw_type: i64,
        raw_path_type: i64,
        filter: Option<String>,
        default_path: Option<String>,
    ) -> (r: Result<Self, ObsError>)
        ensures
            property_type_of(raw_type) != Some(ObsPropertyType::Path) ==> r is Err
                && is_type_error(r->Err_0, ObsPropertyType::Path),
            property_type_of(raw_type) == Some(ObsPropertyType::Path) && path_type_of(
                raw_path_type,
            ) is None ==> r is Err && is_conversion_error(r->Err_0, "path_type"@, "ObsPathType"@),
            r is Ok <==> property_type_of(raw_type) == Some(ObsPropertyType::Path) && path_type_of(
                raw_path_type,
            ) is Some,
            r is Ok ==> {
                let p = r->Ok_0;
                &&& p.spec_name() == name
                &&& p.spec_description() == description
                &&& Some(p.spec_path_type()) == path_type_of(raw_path_type)
                &&& p.spec_filter() == or_empty(filter)
                &&& p.spec_default_path() == or_empty(default_path)
            },
    {
        check_property_type(raw_type, ObsPropertyType::Path)?;
        let path_type = match ObsPathType::from_raw(raw_path_type) {
            Some(t) => t,
            None => return Err(conversion_failure("path_type", "ObsPathType")),
        };
        let filter = text_or_empty(filter);
        let default_path = text_or_empty(default_path);
        Ok(ObsPathProperty { name, description, path_type, filter, default_path })
    }

    pub fn name(&self) -> (r: &str)
        ensures
            r@ == self.spec_name()@,
    {
        self.name.as_str()
    }

    pub fn description(&self) -> (r: &Option<String>)
        ensures
            *r == self.spec_description(),
    {
        &self.description
    }

    pub fn path_type(&self) -> (r: ObsPathType)
        ensures
            r == self.spec_path_type(),
    {
        self.path_type
    }

    pub fn filter(&self) -> (r: &str)
        ensures
            r@ == self.spec_filter(),
    {
        self.filter.as_str()
    }

    pub fn default_path(&self) -> (r: &str)
        ensures
            r@ == self.spec_default_path(),
    {
        self.default_path.as_str()
    }
}

/// An editable list property.
#[derive(Debug, Clone)]
pub struct ObsEditableListProperty {
    name: String,
    description: Option<String>,
    list_type: ObsEditableListType,
    filter: String,
    default_path: String,
}

impl ObsEditableListProperty {
    pub closed spec fn spec_name(&self) -> String {
        self.name
    }

    pub closed spec fn spec_description(&self) -> Option<String> {
        self.description
    }

    pub closed spec fn spec_list_type(&self) -> ObsEditableListType {
        self.list_type
    }

    pub closed spec fn spec_filter(&self) -> Seq<char> {
        self.filter@
    }

    pub closed spec fn spec_default_path(&self) -> Seq<char> {
        self.default_path@
    }

    /// The description of an editable list property from what libobs reports for it: its
    /// raw type, its raw list type, its file filter and its default path (a missing text
    /// is empty).
    pub fn from_raw(
        name: String,
        description: Option<String>,
        raw_type: i64,
        raw_list_type: i64,
        filter: Option<String>,
        default_path: Option<String>,
    ) -> (r: Result<Self, ObsError>)
        ensures
            property_type_of(raw_type) != Some(ObsPropertyType::EditableList) ==> r is Err
                && is_type_error(r->Err_0, ObsPropertyType::EditableList),
            property_type_of(raw_type) == Some(ObsPropertyType::EditableList)
                && editable_list_type_of(raw_list_type) is None ==> r is Err && is_conversion_error(
                r->Err_0,
                "list_type"@,
                "ObsEditableListType"@,
            ),
            r is Ok <==> property_type_of(raw_type) == Some(ObsPropertyType::EditableList)
                && editable_list_type_of(raw_list_type) is Some,
            r is Ok ==> {
                let p = r->Ok_0;
                &&& p.spec_name() == name
                &&& p.spec_description() == description
                &&& Some(p.spec_list_type()) == editable_list_type_of(raw_list_type)
                &&& p.spec_filter() == or_empty(non_empty(filter))
                &&& p.spec_default_path() == or_empty(non_empty(default_path))
            },
    {
        check_property_type(raw_type, ObsPropertyType::EditableList)?;
        let list_type = match ObsEditableListType::from_raw(raw_list_type) {
            Some(t) => t,
            None => return Err(conversion_failure("list_type", "ObsEditableListType")),
        };
        let filter = text_or_empty(keep_non_empty(filter));
        let default_path = text_or_empty(keep_non_empty(default_path));
        Ok(ObsEditableListProperty { name, description, list_type, filter, default_path })
    }

    pub fn name(&self) -> (r: &str)
        ensures
            r@ == self.spec_name()@,
    {
        self.name.as_str()
    }

    pub fn description(&self) -> (r: &Option<String>)
        ensures
            *r == self.spec_description(),
    {
        &self.description
    }

    pub fn list_type(&self) -> (r: ObsEditableListType)
        ensures
            r == self.spec_list_type(),
    {
        self.list_type
    }

    pub fn filter(&self) -> (r: &str)
        ensures
            r@ == self.spec_filter(),
    {
        self.filter.as_str()
    }

    pub fn default_path(&self) -> (r: &str)
        ensures
            r@ == self.spec_default_path(),
    {
        self.default_path.as_str()
    }
}

/// A text property.
#[derive(Debug, Clone)]
pub struct ObsTextProperty {
    name: String,
    description: Option<String>,
    monospace: bool,
    text_type: ObsTextType,
    info_type: ObsTextInfoType,
    word_wrap: bool,
}

impl ObsTextProperty {
    pub closed spec fn spec_name(&self) -> String {
        self.name
    }

    pub closed spec fn spec_description(&self) -> Option<String> {
        self.description
    }

    pub closed spec fn spec_monospace(&self) -> bool {
        self.monospace
    }

    pub closed spec fn spec_text_type(&self) -> ObsTextType {
        self.text_type
    }

    pub closed spec fn spec_info_type(&self) -> ObsTextInfoType {
        self.info_type
    }

    pub closed spec fn spec_word_wrap(&self) -> bool {
        self.word_wrap
    }

    /// The description of a text property from what libobs reports for it: its raw type,
    /// its raw information type (checked first), its raw text type and its flags.
    pub fn from_raw(
        name: String,
        description: Option<String>,
        raw_type: i64,
        raw_info_type: i64,
        raw_text_type: i64,
        monospace: bool,
        word_wrap: bool,
    ) -> (r: Result<Self, ObsError>)
        ensures
            property_type_of(raw_type) != Some(ObsPropertyType::Text) ==> r is Err
                && is_type_error(r->Err_0, ObsPropertyType::Text),
            property_type_of(raw_type) == Some(ObsPropertyType::Text) && text_info_type_of(
                raw_info_type,
            ) is None ==> r is Err && is_conversion_error(
                r->Err_0,
                "text_info_type"@,
                "ObsTextInfoType"@,
            ),
            property_type_of(raw_type) == Some(ObsPropertyType::Text) && text_info_type_of(
                raw_info_type,
            ) is Some && text_type_of(raw_text_type) is None ==> r is Err && is_conversion_error(
                r->Err_0,
                "text_type"@,
                "ObsTextType"@,
            ),
            r is Ok <==> property_type_of(raw_type) == Some(ObsPropertyType::Text)
                && text_info_type_of(raw_info_type) is Some && text_type_of(raw_text_type) is Some,
            r is Ok ==> {
                let p = r->Ok_0;
                &&& p.spec_name() == name
                &&& p.spec_description() == description
                &&& Some(p.spec_info_type()) == text_info_type_of(raw_info_type)
                &&& Some(p.spec_text_type()) == text_type_of(raw_text_type)
                &&& p.spec_monospace() == monospace
                &&& p.spec_word_wrap() == word_wrap
            },
    {
        check_property_type(raw_type, ObsPropertyType::Text)?;
        let info_type = match ObsTextInfoType::from_raw(raw_info_type) {
            Some(t) => t,
            None => return Err(conversion_failure("text_info_type", "ObsTextInfoType")),
        };
        let text_type = match ObsTextType::from_raw(raw_text_type) {
            Some(t) => t,
            None => return Err(conversion_failure("text_type", "ObsTextType")),
        };
        Ok(ObsTextProperty { name, description, monospace, text_type, info_type, word_wrap })
    }

    pub fn name(&self) -> (r: &str)
        ensures
            r@ == self.spec_name()@,
    {
        self.name.as_str()
    }

    pub fn description(&self) -> (r: &Option<String>)
        ensures
            *r == self.spec_description(),
    {
        &self.description
    }

    pub fn monospace(&self) -> (r: bool)
        ensures
            r == self.spec_monospace(),
    {
        self.monospace
    }

    pub fn text_type(&self) -> (r: ObsTextType)
        ensures
            r == self.spec_text_type(),
    {
        self.text_type
    }

    pub fn info_type(&self) -> (r: ObsTextInfoType)
        ensures
            r == self.spec_info_type(),
    {
        self.info_type
    }

    pub fn word_wrap(&self) -> (r: bool)
        ensures
            r == self.spec_word_wrap(),
    {
        self.word_wrap
    }
}

/// `e` says that the number type of property `name` is no `ObsNumberType` variant.
pub open spec fn is_number_type_error(e: ObsError, name: Seq<char>) -> bool {
    e matches ObsError::EnumConversionError(m) && m@ == "ObsNumberType for property "@ + name
}

/// A number property: an integer property with `T = i32`; a floating-point property
/// carries its bounds in whatever type the caller keeps them.
#[derive(Debug, Clone)]
pub struct ObsNumberProperty<T: Copy> {
    name: String,
    description: Option<String>,
    min: T,
    max: T,
    step: T,
    suffix: String,
    number_type: ObsNumberType,
}

impl<T: Copy> ObsNumberProperty<T> {
    pub closed spec fn spec_name(&self) -> String {
        self.name
    }

    pub closed spec fn spec_description(&self) -> Option<String> {
        self.description
    }

    pub closed spec fn spec_min(&self) -> T {
        self.min
    }

    pub closed spec fn spec_max(&self) -> T {
        self.max
    }

    pub closed spec fn spec_step(&self) -> T {
        self.step
    }

    pub closed spec fn spec_suffix(&self) -> Seq<char> {
        self.suffix@
    }

    pub closed spec fn spec_number_type(&self) -> ObsNumberType {
        self.number_type
    }

    /// The description of a number property from what libobs reports for it: its bounds,
    /// its step, its suffix (a missing suffix is empty) and its raw number type.
    pub fn from_raw(
        name: String,
        description: Option<String>,
        min: T,
        max: T,
        step: T,
        suffix: Option<String>,
        raw_number_type: i64,
    ) -> (r: Result<Self, ObsError>)
        ensures
            r is Ok <==> number_type_of(raw_number_type) is Some,
            r is Err ==> is_number_type_error(r->Err_0, name@),
            r is Ok ==> {
                let p = r->Ok_0;
                &&& p.spec_name() == name
                &&& p.spec_description() == description
                &&& p.spec_min() == min
                &&& p.spec_max() == max
                &&& p.spec_step() == step
                &&& p.spec_suffix() == or_empty(suffix)
                &&& Some(p.spec_number_type()) == number_type_of(raw_number_type)
            },
    {
        let suffix = text_or_empty(suffix);
        match ObsNumberType::from_raw(raw_number_type) {
            Some(number_type) => Ok(ObsNumberProperty { name, description, min, max, step, suffix, number_type }),
            None => {
                let mut m = String::from_str("ObsNumberType for property ");
                m.append(name.as_str());
                Err(ObsError::EnumConversionError(m))
            },
        }
    }

    pub fn name(&self) -> (r: &str)
        ensures
            r@ == self.spec_name()@,
    {
        self.name.as_str()
    }

    pub fn description(&self) -> (r: &Option<String>)
        ensures
            *r == self.spec_description(),
    {
        &self.description
    }

    pub fn min(&self) -> (r: T)
        ensures
            r == self.spec_min(),
    {
        self.min
    }

    pub fn max(&self) -> (r: T)
        ensures
            r == self.spec_max(),
    {
        self.max
    }

    pub fn step(&self) -> (r: T)
        ensures
            r == self.spec_step(),
    {
        self.step
    }

    pub fn suffix(&self) -> (r: &str)
        ensures
            r@ == self.spec_suffix(),
    {
        self.suffix.as_str()
    }

    pub fn number_type(&self) -> (r: ObsNumberType)
        ensures
            r == self.spec_number_type(),
    {
        self.number_type
    }
}

/// The value of one entry of a list property.
#[derive(Debug, Clone, PartialEq)]
pub enum ObsListItemValue {
    String(String),
    Int(i64),
    /// A floating-point value, as the bits of its IEEE 754 double representation.
    Float(u64),
    Bool(bool),
    Invalid,
}

/// One entry of a list property as libobs reports it: its name (`None` where libobs has
/// none), whether it is disabled, and its value read in each of the list formats.
#[derive(Debug, Clone)]
pub struct RawListItem {
    pub name: Option<String>,
    pub disabled: bool,
    pub int_value: i64,
    pub float_bits: u64,
    pub string_value: Option<String>,
    pub bool_value: bool,
}

/// One entry of a list property.
#[derive(Debug, Clone)]
pub struct ObsListItem {
    name: String,
    value: ObsListItemValue,
    disabled: bool,
}

/// `v` is the value of raw entry `raw` in list format `format`; a missing string is
/// the empty string.
pub open spec fn is_list_item_value(v: ObsListItemValue, format: ObsComboFormat, raw: RawListItem) -> bool {
    match format {
        ObsComboFormat::Invalid => v == ObsListItemValue::Invalid,
        ObsComboFormat::Int => v == ObsListItemValue::Int(raw.int_value),
        ObsComboFormat::Float => v == ObsListItemValue::Float(raw.float_bits),
        ObsComboFormat::String => v matches ObsListItemValue::String(t) && t@ == or_empty(raw.string_value),
        ObsComboFormat::Bool => v == ObsListItemValue::Bool(raw.bool_value),
    }
}

/// The entry `item` stands for raw entry `raw` of a list in format `format`.
pub open spec fn list_item_from(item: ObsListItem, raw: RawListItem, format: ObsComboFormat) -> bool {
    &&& raw.name is Some
    &&& item.spec_name() == raw.name->0
    &&& item.spec_disabled() == raw.disabled
    &&& is_list_item_value(item.spec_value(), format, raw)
}

/// The raw entries that have a name, in order.
pub open spec fn named_items(raw: Seq<RawListItem>) -> Seq<RawListItem> {
    raw.filter(|r: RawListItem| r.name is Some)
}

impl ObsListItem {
    pub closed spec fn spec_name(&self) -> String {
        self.name
    }

    pub closed spec fn spec_value(&self) -> ObsListItemValue {
        self.value
    }

    pub closed spec fn spec_disabled(&self) -> bool {
        self.disabled
    }

    pub fn name(&self) -> (r: &str)
        ensures
            r@ == self.spec_name()@,
    {
        self.name.as_str()
    }

    pub fn value(&self) -> (r: &ObsListItemValue)
        ensures
            *r == self.spec_value(),
    {
        &self.value
    }

    pub fn disabled(&self) -> (r: bool)
        ensures
            r == self.spec_disabled(),
    {
        self.disabled
    }
}

fn item_from_raw(raw: &RawListItem, format: ObsComboFormat) -> (r: Option<ObsListItem>)
    ensures
        r is Some <==> raw.name is Some,
        r is Some ==> list_item_from(r->0, *raw, format),
{
    let name = match &raw.name {
        Some(n) => n.clone(),
        None => return None,
    };
    let value = match format {
        ObsComboFormat::Invalid => ObsListItemValue::Invalid,
        ObsComboFormat::Int => ObsListItemValue::Int(raw.int_value),
        ObsComboFormat::Float => ObsListItemValue::Float(raw.float_bits),
        ObsComboFormat::String => match &raw.string_value {
            Some(t) => ObsListItemValue::String(t.clone()),
            None => ObsListItemValue::String(String::new()),
        },
        ObsComboFormat::Bool => ObsListItemValue::Bool(raw.bool_value),
    };
    Some(ObsListItem { name, value, disabled: raw.disabled })
}

/// A list property.
#[derive(Debug, Clone)]
pub struct ObsListProperty {
    name: String,
    description: Option<String>,
    list_type: ObsComboType,
    format: ObsComboFormat,
    items: Vec<ObsListItem>,
}

impl ObsListProperty {
    pub closed spec fn spec_name(&self) -> String {
        self.name
    }

    pub closed spec fn spec_description(&self) -> Option<String> {
        self.description
    }

    pub closed spec fn spec_list_type(&self) -> ObsComboType {
        self.list_type
    }

    pub closed spec fn spec_format(&self) -> ObsComboFormat {
        self.format
    }

    pub closed spec fn spec_items(&self) -> Seq<ObsListItem> {
        self.items@
    }

    /// The description of a list property from what libobs reports for it: its raw type,
    /// its raw list type, its raw format and its entries. Entries without a name are left
    /// out; each other entry keeps the value of the list's format.
    pub fn from_raw(
        name: String,
        description: Option<String>,
        raw_type: i64,
        raw_list_type: i64,
        raw_format: i64,
        raw_items: &Vec<RawListItem>,
    ) -> (r: Result<Self, ObsError>)
        ensures
            property_type_of(raw_type) != Some(ObsPropertyType::List) ==> r is Err
                && is_type_error(r->Err_0, ObsPropertyType::List),
            property_type_of(raw_type) == Some(ObsPropertyType::List) && combo_type_of(
                raw_list_type,
            ) is None ==> r is Err && is_conversion_error(r->Err_0, "list_type"@, "ObsComboType"@),
            property_type_of(raw_type) == Some(ObsPropertyType::List) && combo_type_of(
                raw_list_type,
            ) is Some && combo_format_of(raw_format) is None ==> r is Err && is_conversion_error(
                r->Err_0,
                "list_format"@,
                "ObsComboFormat"@,
            ),
            r is Ok <==> property_type_of(raw_type) == Some(ObsPropertyType::List) && combo_type_of(
                raw_list_type,
            ) is Some && combo_format_of(raw_format) is Some,
            r is Ok ==> {
                let p = r->Ok_0;
                &&& p.spec_name() == name
                &&& p.spec_description() == description
                &&& Some(p.spec_list_type()) == combo_type_of(raw_list_type)
                &&& Some(p.spec_format()) == combo_format_of(raw_format)
                &&& p.spec_items().len() == named_items(raw_items@).len()
                &&& forall|k: int|
                    0 <= k < p.spec_items().len() ==> list_item_from(
                        #[trigger] p.spec_items()[k],
                        named_items(raw_items@)[k],
                        p.spec_format(),
                    )
            },
    {
        check_property_type(raw_type, ObsPropertyType::List)?;
        let list_type = match ObsComboType::from_raw(raw_list_type) {
            Some(t) => t,
            None => return Err(conversion_failure("list_type", "ObsComboType")),
        };
        let format = match ObsComboFormat::from_raw(raw_format) {
            Some(t) => t,
            None => return Err(conversion_failure("list_format", "ObsComboFormat")),
        };
        let mut items: Vec<ObsListItem> = Vec::new();
        let mut i: usize = 0;
        while i < raw_items.len()
            invariant
                i <= raw_items.len(),
                items@.len() == named_items(raw_items@.subrange(0, i as int)).len(),
                forall|k: int|
                    0 <= k < items@.len() ==> list_item_from(
                        #[trigger] items@[k],
                        named_items(raw_items@.subrange(0, i as int))[k],
                        format,
                    ),
            decreases raw_items.len() - i,
        {
            let ghost prefix = raw_items@.subrange(0, i as int);
            let ghost next = raw_items@.subrange(0, i + 1);
            proof {
                assert(next.drop_last() =~= prefix);
                reveal_with_fuel(Seq::filter, 1);
            }
            match item_from_raw(&raw_items[i], format) {
                Some(item) => {
                    items.push(item);
                },
                None => {},
            }
            i = i + 1;
        }
        assert(raw_items@.subrange(0, raw_items@.len() as int) =~= raw_items@);
        Ok(ObsListProperty { name, description, list_type, format, items })
    }

    pub fn name(&self) -> (r: &str)
        ensures
            r@ == self.spec_name()@,
    {
        self.name.as_str()
    }

    pub fn description(&self) -> (r: &Option<String>)
        ensures
            *r == self.spec_description(),
    {
        &self.description
    }

    pub fn list_type(&self) -> (r: ObsComboType)
        ensures
            r == self.spec_list_type(),
    {
        self.list_type
    }

    pub fn format(&self) -> (r: ObsComboFormat)
        ensures
            r == self.spec_format(),
    {
        self.format
    }

    pub fn items(&self) -> (r: &[ObsListItem])
        ensures
            r@ == self.spec_items(),
    {
        self.items.as_slice()
    }
}

/// A color property: only its name and description are described.
#[derive(Debug, Clone)]
pub struct ObsColorProperty {
    name: String,
    description: Option<String>,
}

impl ObsColorProperty {
    pub closed spec fn spec_name(&self) -> String {
        self.name
    }

    pub closed spec fn spec_description(&self) -> Option<String> {
        self.description
    }

    /// The description of the property, which libobs must report as of this type.
    pub fn from_raw(name: String, description: Option<String>, raw_type: i64) -> (r: Result<Self, ObsError>)
        ensures
            r is Ok <==> property_type_of(raw_type) == Some(ObsPropertyType::Color),
            r is Err ==> is_type_error(r->Err_0, ObsPropertyType::Color),
            r is Ok ==> r->Ok_0.spec_name() == name && r->Ok_0.spec_description() == description,
    {
        check_property_type(raw_type, ObsPropertyType::Color)?;
        Ok(ObsColorProperty { name, description })
    }

    pub fn name(&self) -> (r: &str)
        ensures
            r@ == self.spec_name()@,
    {
        self.name.as_str()
    }

    pub fn description(&self) -> (r: &Option<String>)
        ensures
            *r == self.spec_description(),
    {
        &self.description
    }
}

/// A font property: only its name and description are described.
#[derive(Debug, Clone)]
pub struct ObsFontProperty {
    name: String,
    description: Option<String>,
}

impl ObsFontProperty {
    pub closed spec fn spec_name(&self) -> String {
        self.name
    }

    pub closed spec fn spec_description(&self) -> Option<String> {
        self.description
    }

    /// The description of the property, which libobs must report as of this type.
    pub fn from_raw(name: String, description: Option<String>, raw_type: i64) -> (r: Result<Self, ObsError>)
        ensures
            r is Ok <==> property_type_of(raw_type) == Some(ObsPropertyType::Font),
            r is Err ==> is_type_error(r->Err_0, ObsPropertyType::Font),
            r is Ok ==> r->Ok_0.spec_name() == name && r->Ok_0.spec_description() == description,
    {
        check_property_type(raw_type, ObsPropertyType::Font)?;
        Ok(ObsFontProperty { name, description })
    }

    pub fn name(&self) -> (r: &str)
        ensures
            r@ == self.spec_name()@,
    {
        self.name.as_str()
    }

    pub fn description(&self) -> (r: &Option<String>)
        ensures
            *r == self.spec_description(),
    {
        &self.description
    }
}

/// A frameRate property: only its name and description are described.
#[derive(Debug, Clone)]
pub struct ObsFrameRateProperty {
    name: String,
    description: Option<String>,
}

impl ObsFrameRateProperty {
    pub closed spec fn spec_name(&self) -> String {
        self.name
    }

    pub closed spec fn spec_description(&self) -> Option<String> {
        self.description
    }

    /// The description of the property, which libobs must report as of this type.
    pub fn from_raw(name: String, description: Option<String>, raw_type: i64) -> (r: Result<Self, ObsError>)
        ensures
            r is Ok <==> property_type_of(raw_type) == Some(ObsPropertyType::FrameRate),
            r is Err ==> is_type_error(r->Err_0, ObsPropertyType::FrameRate),
            r is Ok ==> r->Ok_0.spec_name() == name && r->Ok_0.spec_description() == description,
    {
        check_property_type(raw_type, ObsPropertyType::FrameRate)?;
        Ok(ObsFrameRateProperty { name, description })
    }

    pub fn name(&self) -> (r: &str)
        ensures
            r@ == self.spec_name()@,
    {
        self.name.as_str()
    }

    pub fn description(&self) -> (r: &Option<String>)
        ensures
            *r == self.spec_description(),
    {
        &self.description
    }
}

/// A group property: only its name and description are described.
#[derive(Debug, Clone)]
pub struct ObsGroupProperty {
    name: String,
    description: Option<String>,
}

impl ObsGroupProperty {
    pub closed spec fn spec_name(&self) -> String {
        self.name
    }

    pub closed spec fn spec_description(&self) -> Option<String> {
        self.description
    }

    /// The description of the property, which libobs must report as of this type.
    pub fn from_raw(name: String, description: Option<String>, raw_type: i64) -> (r: Result<Self, ObsError>)
        ensures
            r is Ok <==> property_type_of(raw_type) == Some(ObsPropertyType::Group),
            r is Err ==> is_type_error(r->Err_0, ObsPropertyType::Group),
            r is Ok ==> r->Ok_0.spec_name() == name && r->Ok_0.spec_description() == description,
    {
        check_property_type(raw_type, ObsPropertyType::Group)?;
        Ok(ObsGroupProperty { name, description })
    }

    pub fn name(&self) -> (r: &str)
        ensures
            r@ == self.spec_name()@,
    {
        self.name.as_str()
    }

    pub fn description(&self) -> (r: &Option<String>)
        ensures
            *r == self.spec_description(),
    {
        &self.description
    }
}

/// A colorAlpha property: only its name and description are described.
#[derive(Debug, Clone)]
pub struct ObsColorAlphaProperty {
    name: String,
    description: Option<String>,
}

impl ObsColorAlphaProperty {
    pub closed spec fn spec_name(&self) -> String {
        self.name
    }

    pub closed spec fn spec_description(&self) -> Option<String> {
        self.description
    }

    /// The description of the property, which libobs must report as of this type.
    pub fn from_raw(name: String, description: Option<String>, raw_type: i64) -> (r: Result<Self, ObsError>)
        ensures
            r is Ok <==> property_type_of(raw_type) == Some(ObsPropertyType::ColorAlpha),
            r is Err ==> is_type_error(r->Err_0, ObsPropertyType::ColorAlpha),
            r is Ok ==> r->Ok_0.spec_name() == name && r->Ok_0.spec_description() == description,
    {
        check_property_type(raw_type, ObsPropertyType::ColorAlpha)?;
        Ok(ObsColorAlphaProperty { name, description })
    }

    pub fn name(&self) -> (r: &str)
        ensures
            r@ == self.spec_name()@,
    {
        self.name.as_str()
    }

    pub fn description(&self) -> (r: &Option<String>)
        ensures
            *r == self.spec_description(),
    {
        &self.description
    }
}

} // verus!
