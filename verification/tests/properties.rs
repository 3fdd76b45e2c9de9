use libobs_wrapper::error::ObsError;
use libobs_wrapper::properties::{
    check_property_type, ObsButtonProperty, ObsColorProperty, ObsEditableListProperty,
    ObsGroupProperty, ObsListItemValue, ObsListProperty, ObsNumberProperty, ObsPathProperty,
    ObsTextProperty, RawListItem,
};
use libobs_wrapper::property_types::{
    ObsButtonType, ObsComboFormat, ObsComboType, ObsEditableListType, ObsNumberType, ObsPathType,
    ObsPropertyType, ObsTextInfoType, ObsTextType,
};

fn item(name: Option<&str>, string_value: Option<&str>) -> RawListItem {
    RawListItem {
        name: name.map(|n| n.to_string()),
        disabled: false,
        int_value: 42,
        float_bits: 2.5f64.to_bits(),
        string_value: string_value.map(|v| v.to_string()),
        bool_value: true,
    }
}

#[test]
fn property_types_convert_from_libobs_numbers() {
    assert_eq!(ObsPropertyType::from_raw(0), Some(ObsPropertyType::Invalid));
    assert_eq!(ObsPropertyType::from_raw(10), Some(ObsPropertyType::EditableList));
    assert_eq!(ObsPropertyType::from_raw(13), Some(ObsPropertyType::ColorAlpha));
    assert_eq!(ObsPropertyType::from_raw(14), None);
    assert_eq!(ObsPropertyType::from_raw(-1), None);
    assert_eq!(ObsComboFormat::from_raw(3), Some(ObsComboFormat::String));
    assert_eq!(ObsPathType::from_raw(2), Some(ObsPathType::Directory));
    assert_eq!(ObsEditableListType::from_raw(3), None);
}

#[test]
fn type_check_names_the_expected_type() {
    assert_eq!(check_property_type(8, ObsPropertyType::Button), Ok(()));
    assert_eq!(
        check_property_type(4, ObsPropertyType::Button),
        Err(ObsError::InvocationError("Property is not of type Button".to_string()))
    );
    assert_eq!(
        check_property_type(99, ObsPropertyType::EditableList),
        Err(ObsError::InvocationError("Property is not of type EditableList".to_string()))
    );
}

#[test]
fn button_property_from_raw_values() {
    let p = ObsButtonProperty::from_raw("open".to_string(), None, 8, 1, Some("https://obsproject.com".to_string())).unwrap();
    assert_eq!(p.name(), "open");
    assert_eq!(p.button_type(), ObsButtonType::Url);
    assert_eq!(p.url(), &Some("https://obsproject.com".to_string()));
    let p = ObsButtonProperty::from_raw("open".to_string(), None, 8, 0, Some(String::new())).unwrap();
    assert_eq!(p.url(), &None);
    assert_eq!(
        ObsButtonProperty::from_raw("open".to_string(), None, 8, 5, None).unwrap_err(),
        ObsError::EnumConversionError("Failed to convert button_type to enum ObsButtonType".to_string())
    );
}

#[test]
fn path_and_editable_list_default_missing_texts_to_empty() {
    let p = ObsPathProperty::from_raw("file".to_string(), Some("File".to_string()), 5, 0, None, Some("/tmp".to_string())).unwrap();
    assert_eq!(p.path_type(), ObsPathType::File);
    assert_eq!(p.filter(), "");
    assert_eq!(p.default_path(), "/tmp");
    assert_eq!(p.description(), &Some("File".to_string()));
    assert_eq!(
        ObsPathProperty::from_raw("file".to_string(), None, 5, 7, None, None).unwrap_err(),
        ObsError::EnumConversionError("Failed to convert path_type to enum ObsPathType".to_string())
    );
    let e = ObsEditableListProperty::from_raw("files".to_string(), None, 10, 2, Some("*.png".to_string()), None).unwrap();
    assert_eq!(e.list_type(), ObsEditableListType::FilesAndUrls);
    assert_eq!(e.filter(), "*.png");
    assert_eq!(e.default_path(), "");
    assert_eq!(
        ObsEditableListProperty::from_raw("files".to_string(), None, 6, 2, None, None).unwrap_err(),
        ObsError::InvocationError("Property is not of type EditableList".to_string())
    );
}

#[test]
fn text_property_checks_info_type_before_text_type() {
    let t = ObsTextProperty::from_raw("note".to_string(), None, 4, 1, 3, true, false).unwrap();
    assert_eq!(t.info_type(), ObsTextInfoType::Warning);
    assert_eq!(t.text_type(), ObsTextType::Info);
    assert!(t.monospace());
    assert!(!t.word_wrap());
    assert_eq!(
        ObsTextProperty::from_raw("note".to_string(), None, 4, 9, 9, false, false).unwrap_err(),
        ObsError::EnumConversionError("Failed to convert text_info_type to enum ObsTextInfoType".to_string())
    );
    assert_eq!(
        ObsTextProperty::from_raw("note".to_string(), None, 4, 0, 9, false, false).unwrap_err(),
        ObsError::EnumConversionError("Failed to convert text_type to enum ObsTextType".to_string())
    );
}

#[test]
fn number_property_keeps_bounds_and_converts_its_type() {
    let n = ObsNumberProperty::<i32>::from_raw("bitrate".to_string(), None, 50, 10_000, 50, Some(" Kbps".to_string()), 1).unwrap();
    assert_eq!((n.min(), n.max(), n.step()), (50, 10_000, 50));
    assert_eq!(n.suffix(), " Kbps");
    assert_eq!(n.number_type(), ObsNumberType::Slider);
    let n = ObsNumberProperty::<i32>::from_raw("crf".to_string(), None, 0, 51, 1, None, 0).unwrap();
    assert_eq!(n.suffix(), "");
    assert_eq!(
        ObsNumberProperty::<i32>::from_raw("crf".to_string(), None, 0, 51, 1, None, 2).unwrap_err(),
        ObsError::EnumConversionError("ObsNumberType for property crf".to_string())
    );
}

#[test]
fn list_property_skips_unnamed_entries_and_reads_the_format() {
    let raw = vec![item(Some("fast"), Some("veryfast")), item(None, Some("x")), item(Some("slow"), None)];
    let l = ObsListProperty::from_raw("preset".to_string(), None, 6, 2, 3, &raw).unwrap();
    assert_eq!(l.list_type(), ObsComboType::List);
    assert_eq!(l.format(), ObsComboFormat::String);
    assert_eq!(l.items().len(), 2);
    assert_eq!(l.items()[0].name(), "fast");
    assert_eq!(l.items()[0].value(), &ObsListItemValue::String("veryfast".to_string()));
    assert_eq!(l.items()[1].value(), &ObsListItemValue::String(String::new()));
    let f = ObsListProperty::from_raw("scale".to_string(), None, 6, 1, 2, &raw).unwrap();
    assert_eq!(f.items()[1].value(), &ObsListItemValue::Float(2.5f64.to_bits()));
    let i = ObsListProperty::from_raw("n".to_string(), None, 6, 1, 1, &raw).unwrap();
    assert_eq!(i.items()[0].value(), &ObsListItemValue::Int(42));
    assert_eq!(
        ObsListProperty::from_raw("n".to_string(), None, 6, 9, 1, &raw).unwrap_err(),
        ObsError::EnumConversionError("Failed to convert list_type to enum ObsComboType".to_string())
    );
    assert_eq!(
        ObsListProperty::from_raw("n".to_string(), None, 6, 1, 9, &raw).unwrap_err(),
        ObsError::EnumConversionError("Failed to convert list_format to enum ObsComboFormat".to_string())
    );
}

#[test]
fn general_properties_only_check_their_type() {
    let c = ObsColorProperty::from_raw("color".to_string(), None, 7).unwrap();
    assert_eq!(c.name(), "color");
    assert_eq!(
        ObsGroupProperty::from_raw("group".to_string(), None, 7).unwrap_err(),
        ObsError::InvocationError("Property is not of type Group".to_string())
    );
}
