use css_properties::custom::trim_trailing;
use css_properties::ident::{Multiplicity, PropertyId, ValueKind, PROPERTY_COUNT};
use css_properties::printer::Printer;

#[test]
fn every_property_is_found_by_its_name() {
    for i in 0..PROPERTY_COUNT {
        let id = PropertyId::from_index(i).unwrap();
        assert_eq!(id.index(), i);
        assert_eq!(PropertyId::from_name(id.name()), Some(id));
        assert_eq!(PropertyId::from_name(&id.name().to_ascii_uppercase()), Some(id));
    }
}

#[test]
fn table_holds_every_property_once() {
    assert_eq!(PROPERTY_COUNT, 183);
    let mut names: Vec<&str> =
        (0..PROPERTY_COUNT).map(|i| PropertyId::from_index(i).unwrap().name()).collect();
    names.sort();
    names.dedup();
    assert_eq!(names.len(), PROPERTY_COUNT);
    assert_eq!(PropertyId::from_index(0), Some(PropertyId::BackgroundColor));
    assert_eq!(PropertyId::from_index(PROPERTY_COUNT - 1), Some(PropertyId::Transform));
    assert_eq!(PropertyId::from_index(PROPERTY_COUNT), None);
    assert_eq!(PropertyId::from_index(usize::MAX), None);
}

#[test]
fn names_are_lowercase() {
    for i in 0..PROPERTY_COUNT {
        let name = PropertyId::from_index(i).unwrap().name();
        assert_eq!(name, name.to_ascii_lowercase());
        assert!(name.is_ascii());
    }
}

#[test]
fn names_are_the_canonical_ones() {
    assert_eq!(PropertyId::BackgroundColor.name(), "background-color");
    assert_eq!(PropertyId::BorderTopLeftRadius.name(), "border-top-left-radius");
    assert_eq!(PropertyId::Gap.name(), "gap");
    assert_eq!(PropertyId::RowGap.name(), "row-gap");
    assert_eq!(PropertyId::ColumnGap.name(), "column-gap");
    assert_eq!(PropertyId::ScrollPaddingInlineEnd.name(), "scroll-padding-inline-end");
    assert_eq!(PropertyId::TransitionTimingFunction.name(), "transition-timing-function");
    assert_eq!(PropertyId::Transform.name(), "transform");
}

#[test]
fn names_are_matched_whole() {
    assert_eq!(PropertyId::from_name("background"), Some(PropertyId::Background));
    assert_eq!(PropertyId::from_name("background-"), None);
    assert_eq!(PropertyId::from_name("backgroun"), None);
    assert_eq!(PropertyId::from_name(" color"), None);
    assert_eq!(PropertyId::from_name("color "), None);
    assert_eq!(PropertyId::from_name(""), None);
    assert_eq!(PropertyId::from_name("--color"), None);
    assert_eq!(PropertyId::from_name("-webkit-transition"), None);
    assert_eq!(PropertyId::from_name("grid"), None);
}

#[test]
fn names_are_matched_without_regard_to_ascii_case() {
    assert_eq!(PropertyId::from_name("Color"), Some(PropertyId::Color));
    assert_eq!(PropertyId::from_name("FONT-family"), Some(PropertyId::FontFamily));
    assert_eq!(PropertyId::from_name("GRID-GAP"), Some(PropertyId::Gap));
    assert_eq!(PropertyId::from_name("c\u{f6}lor"), None);
    assert_eq!(PropertyId::from_name("\u{212a}"), None);
}

#[test]
fn legacy_names_find_the_modern_property() {
    assert_eq!(PropertyId::from_name("grid-row-gap"), Some(PropertyId::RowGap));
    assert_eq!(PropertyId::from_name("grid-column-gap"), Some(PropertyId::ColumnGap));
    assert_eq!(PropertyId::from_name("grid-gap"), Some(PropertyId::Gap));
    assert_eq!(PropertyId::from_name("grid-gap"), PropertyId::from_name("gap"));
}

#[test]
fn lists_are_the_layered_properties() {
    let lists: Vec<PropertyId> = (0..PROPERTY_COUNT)
        .filter_map(PropertyId::from_index)
        .filter(|id| id.multiplicity().is_list())
        .collect();
    assert_eq!(lists.len(), 26);
    assert_eq!(PropertyId::FontFamily.multiplicity(), Multiplicity::GrowableList);
    assert_eq!(PropertyId::BackgroundImage.multiplicity(), Multiplicity::CompactList);
    assert_eq!(PropertyId::Transition.multiplicity(), Multiplicity::CompactList);
    assert_eq!(PropertyId::Animation.multiplicity(), Multiplicity::CompactList);
    assert_eq!(PropertyId::BoxShadow.multiplicity(), Multiplicity::CompactList);
    assert_eq!(PropertyId::Opacity.multiplicity(), Multiplicity::Single);
    assert_eq!(PropertyId::Font.multiplicity(), Multiplicity::Single);
    assert_eq!(PropertyId::Transform.multiplicity(), Multiplicity::Single);
    assert!(!Multiplicity::Single.is_list());
    assert!(Multiplicity::CompactList.is_list());
    assert!(Multiplicity::GrowableList.is_list());
}

#[test]
fn each_property_has_the_grammar_of_its_value() {
    assert_eq!(PropertyId::BackgroundColor.value_kind(), ValueKind::CssColor);
    assert_eq!(PropertyId::OutlineColor.value_kind(), ValueKind::CssColor);
    assert_eq!(PropertyId::BackgroundClip.value_kind(), ValueKind::BackgroundBox);
    assert_eq!(PropertyId::BackgroundOrigin.value_kind(), ValueKind::BackgroundBox);
    assert_eq!(PropertyId::BorderColor.value_kind(), ValueKind::CssColorRect);
    assert_eq!(PropertyId::BorderStyle.value_kind(), ValueKind::BorderStyleRect);
    assert_eq!(PropertyId::BorderWidth.value_kind(), ValueKind::BorderSideWidthRect);
    assert_eq!(PropertyId::BorderImageOutset.value_kind(), ValueKind::LengthOrNumberRect);
    assert_eq!(PropertyId::BorderImageSource.value_kind(), ValueKind::Image);
    assert_eq!(PropertyId::BorderEndEndRadius.value_kind(), ValueKind::LengthPercentageSize2D);
    assert_eq!(PropertyId::MarginBlock.value_kind(), ValueKind::LengthPercentageOrAutoSize2D);
    assert_eq!(PropertyId::ScrollPadding.value_kind(), ValueKind::LengthPercentageOrAutoRect);
    assert_eq!(PropertyId::FlexGrow.value_kind(), ValueKind::Number);
    assert_eq!(PropertyId::FlexBasis.value_kind(), ValueKind::LengthPercentageOrAuto);
    assert_eq!(PropertyId::OutlineWidth.value_kind(), ValueKind::BorderSideWidth);
    assert_eq!(PropertyId::AnimationDelay.value_kind(), ValueKind::Time);
    assert_eq!(PropertyId::TransitionProperty.value_kind(), ValueKind::CustomIdent);
    assert_eq!(PropertyId::AnimationTimingFunction.value_kind(), ValueKind::EasingFunction);
    assert_eq!(PropertyId::Transform.value_kind(), ValueKind::TransformList);
}

#[test]
fn printer_writes_delimiters_by_mode() {
    let mut compact = Printer::new(true);
    compact.write_str("a");
    compact.delim(':', false);
    compact.write_char('b');
    compact.delim('>', true);
    compact.whitespace();
    assert!(compact.minify());
    assert_eq!(compact.as_str(), "a:b>");
    let mut spaced = Printer::new(false);
    spaced.write_str("a");
    spaced.delim(':', false);
    spaced.write_char('b');
    spaced.delim('>', true);
    spaced.whitespace();
    assert!(!spaced.minify());
    assert_eq!(spaced.into_string(), "a: b >  ");
}

#[test]
fn printer_starts_empty() {
    assert_eq!(Printer::new(true).as_str(), "");
    assert_eq!(Printer::new(false).into_string(), "");
}

#[test]
fn trailing_white_space_is_trimmed() {
    assert_eq!(trim_trailing("a b \t\n\r\u{c}".to_string()), "a b");
    assert_eq!(trim_trailing("  a".to_string()), "  a");
    assert_eq!(trim_trailing("   ".to_string()), "");
    assert_eq!(trim_trailing(String::new()), "");
    assert_eq!(trim_trailing("é \u{a0}".to_string()), "é \u{a0}");
    assert_eq!(trim_trailing("é ".to_string()), "é");
}
