use xfw::layout::StyleAttr;

#[test]
fn style_keys_map_to_attributes() {
    assert_eq!(StyleAttr::from_str("flex_direction"), StyleAttr::FlexDirection);
    assert_eq!(StyleAttr::from_str("align_items"), StyleAttr::AlignItems);
    assert_eq!(StyleAttr::from_str("justify_content"), StyleAttr::JustifyContent);
    assert_eq!(StyleAttr::from_str("width"), StyleAttr::Width);
    assert_eq!(StyleAttr::from_str("height"), StyleAttr::Height);
    assert_eq!(StyleAttr::from_str("min_width"), StyleAttr::MinWidth);
    assert_eq!(StyleAttr::from_str("min_height"), StyleAttr::MinHeight);
    assert_eq!(StyleAttr::from_str("max_width"), StyleAttr::MaxWidth);
    assert_eq!(StyleAttr::from_str("max_height"), StyleAttr::MaxHeight);
    assert_eq!(StyleAttr::from_str("flex"), StyleAttr::Flex);
}

#[test]
fn other_style_keys_are_unknown() {
    assert_eq!(StyleAttr::from_str(""), StyleAttr::Unknown);
    assert_eq!(StyleAttr::from_str("flex-direction"), StyleAttr::Unknown);
    assert_eq!(StyleAttr::from_str("Width"), StyleAttr::Unknown);
    assert_eq!(StyleAttr::from_str("widths"), StyleAttr::Unknown);
    assert_eq!(StyleAttr::from_str("flé"), StyleAttr::Unknown);
}
