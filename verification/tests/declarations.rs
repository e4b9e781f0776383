use css_properties::custom::CustomProperty;
use css_properties::ident::{PropertyId, ValueKind};
use css_properties::printer::Printer;
use css_properties::properties::{parse_list, Payload, Property};
use css_properties::traits::{Parse, ParseFailure, ToCss};
use cssparser::{Delimiter, ParseError, Parser, Token};

/// A small family of value types, enough to exercise the engine.
#[derive(Debug, Clone, PartialEq)]
enum Value {
    Number(f32),
    Color(String),
    Url(String),
    Length(f32, String),
    Gap(Box<Value>, Box<Value>),
    Time(f32),
    Pair(f32, f32),
    Ident(String),
    Transition(String, f32),
    Family(String),
}

fn number(input: &mut Parser<'_>) -> Result<Value, ParseFailure> {
    input.expect_number().map(Value::Number).map_err(|_| ParseFailure)
}

fn color(input: &mut Parser<'_>) -> Result<Value, ParseFailure> {
    let name = input.expect_ident().map_err(|_| ParseFailure)?.to_string();
    match name.to_ascii_lowercase().as_str() {
        "red" | "green" | "blue" => Ok(Value::Color(name.to_ascii_lowercase())),
        _ => Err(ParseFailure),
    }
}

fn length(input: &mut Parser<'_>) -> Result<Value, ParseFailure> {
    match input.next() {
        Ok(Token::Dimension { value, unit, .. }) => Ok(Value::Length(*value, unit.to_string())),
        _ => Err(ParseFailure),
    }
}

fn time(input: &mut Parser<'_>) -> Result<f32, ParseFailure> {
    match input.next() {
        Ok(Token::Dimension { value, unit, .. }) => match unit.as_ref() {
            "s" => Ok(*value),
            "ms" => Ok(*value / 1000.0),
            _ => Err(ParseFailure),
        },
        _ => Err(ParseFailure),
    }
}

fn ident(input: &mut Parser<'_>) -> Result<String, ParseFailure> {
    input.expect_ident().map(|name| name.to_string()).map_err(|_| ParseFailure)
}

impl Parse for Value {
    fn parsed(_kind: ValueKind, _text: vstd::seq::Seq<char>) -> Option<(Self, vstd::prelude::nat)> {
        unreachable!()
    }

    fn parse(kind: ValueKind, input: &mut Parser<'_>) -> Result<Self, ParseFailure> {
        match kind {
            ValueKind::AlphaValue | ValueKind::Number => number(input),
            ValueKind::CssColor => color(input),
            ValueKind::Image => {
                input.expect_url().map(|url| Value::Url(url.to_string())).map_err(|_| ParseFailure)
            }
            ValueKind::GapValue | ValueKind::LengthPercentageOrAuto => length(input),
            ValueKind::Gap => {
                let row = length(input)?;
                let column = input.try_parse(length).unwrap_or(row.clone());
                Ok(Value::Gap(Box::new(row), Box::new(column)))
            }
            ValueKind::Time => time(input).map(Value::Time),
            ValueKind::Flex => {
                let grow = input.expect_number().map_err(|_| ParseFailure)?;
                let shrink = input.expect_number().map_err(|_| ParseFailure)?;
                Ok(Value::Pair(grow, shrink))
            }
            ValueKind::CustomIdent => ident(input).map(Value::Ident),
            ValueKind::Transition => {
                let property = ident(input)?;
                let duration = time(input)?;
                Ok(Value::Transition(property, duration))
            }
            ValueKind::FontFamily => input
                .expect_ident_or_string()
                .map(|name| Value::Family(name.to_string()))
                .map_err(|_| ParseFailure),
            _ => Err(ParseFailure),
        }
    }
}

impl ToCss for Value {
    fn css(&self, _minify: bool) -> vstd::seq::Seq<char> {
        unreachable!()
    }

    fn to_css(&self, dest: &mut Printer) {
        match self {
            Value::Number(value) => dest.write_str(&format!("{}", value)),
            Value::Color(name) | Value::Ident(name) | Value::Family(name) => dest.write_str(name),
            Value::Url(url) => {
                dest.write_str("url(");
                dest.write_str(url);
                dest.write_char(')');
            }
            Value::Length(value, unit) => dest.write_str(&format!("{}{}", value, unit)),
            Value::Gap(row, column) => {
                row.to_css(dest);
                if row != column {
                    dest.write_char(' ');
                    column.to_css(dest);
                }
            }
            Value::Time(seconds) => dest.write_str(&format!("{}s", seconds)),
            Value::Pair(grow, shrink) => dest.write_str(&format!("{} {}", grow, shrink)),
            Value::Transition(property, seconds) => {
                dest.write_str(property);
                dest.write_char(' ');
                dest.write_str(&format!("{}s", seconds));
            }
        }
    }
}

fn parse(name: &str, value: &str) -> Result<Property<Value>, ParseFailure> {
    let mut input = Parser::new(value);
    Property::parse(name, &mut input)
}

fn custom(name: &str, value: &str) -> Property<Value> {
    Property::Custom(CustomProperty { name: name.to_string(), value: value.to_string() })
}

fn write(property: &Property<Value>, minify: bool) -> String {
    let mut dest = Printer::new(minify);
    property.to_css(&mut dest);
    dest.into_string()
}

fn px(value: f32) -> Value {
    Value::Length(value, "px".to_string())
}

#[test]
fn known_single_value_is_parsed() {
    assert_eq!(
        parse("opacity", " 0.5"),
        Ok(Property::Known(PropertyId::Opacity, Payload::Single(Value::Number(0.5))))
    );
    assert_eq!(
        parse("color", "red"),
        Ok(Property::Known(PropertyId::Color, Payload::Single(Value::Color("red".to_string()))))
    );
}

#[test]
fn name_is_matched_without_regard_to_case() {
    assert_eq!(
        parse("OPACITY", "1"),
        Ok(Property::Known(PropertyId::Opacity, Payload::Single(Value::Number(1.0))))
    );
    assert_eq!(
        parse("Background-Image", "url(a.png)"),
        Ok(Property::Known(
            PropertyId::BackgroundImage,
            Payload::List(vec![Value::Url("a.png".to_string())])
        ))
    );
}

#[test]
fn single_value_leaves_the_rest_unread() {
    let mut input = Parser::new("green 4px");
    let property: Result<Property<Value>, ParseFailure> = Property::parse("color", &mut input);
    assert_eq!(
        property,
        Ok(Property::Known(PropertyId::Color, Payload::Single(Value::Color("green".to_string()))))
    );
    assert!(matches!(input.next(), Ok(Token::Dimension { .. })));
    assert!(input.is_exhausted());
}

#[test]
fn fallback_keeps_name_and_raw_text() {
    assert_eq!(parse("opacity", " not-a-number"), Ok(custom("opacity", "not-a-number")));
}

#[test]
fn fallback_rewinds_what_the_grammar_had_read() {
    assert_eq!(parse("transition", "color fast"), Ok(custom("transition", "color fast")));
    assert_eq!(parse("flex", " 1 wide"), Ok(custom("flex", "1 wide")));
    assert_eq!(
        parse("flex", "1 2"),
        Ok(Property::Known(PropertyId::Flex, Payload::Single(Value::Pair(1.0, 2.0))))
    );
}

#[test]
fn fallback_after_parsing_has_read_everything() {
    let mut input = Parser::new(" not-a-number ");
    let property: Result<Property<Value>, ParseFailure> = Property::parse("opacity", &mut input);
    assert_eq!(property, Ok(custom("opacity", "not-a-number")));
    assert!(input.next_including_whitespace_and_comments().is_err());
}

#[test]
fn later_list_item_that_fails_gives_custom_with_full_text() {
    assert_eq!(
        parse("background-image", " url(a.png), <garbage>"),
        Ok(custom("background-image", "url(a.png), <garbage>"))
    );
}

#[test]
fn list_item_with_text_left_over_gives_custom() {
    assert_eq!(
        parse("background-image", "url(a.png) x, url(b.png)"),
        Ok(custom("background-image", "url(a.png) x, url(b.png)"))
    );
}

#[test]
fn missing_first_item_gives_custom_not_an_empty_list() {
    assert_eq!(parse("background-image", " "), Ok(custom("background-image", "")));
    assert_eq!(parse("background-image", ", url(a.png)"), Ok(custom("background-image", ", url(a.png)")));
}

#[test]
fn trailing_comma_gives_custom() {
    assert_eq!(
        parse("background-image", "url(a.png),"),
        Ok(custom("background-image", "url(a.png),"))
    );
}

#[test]
fn nothing_to_read_is_a_failure() {
    assert_eq!(parse("background-image", ""), Err(ParseFailure));
    assert_eq!(parse("--my-var", ""), Err(ParseFailure));
    assert_eq!(parse("opacity", ""), Err(ParseFailure));
}

#[test]
fn anything_to_read_gives_a_property() {
    for name in ["opacity", "transition", "font-family", "--x", "unknown", ""] {
        for value in [" ", "1", "a, b", "url(", "\"open", ")", "/* c */", "!important", ",", "é"] {
            assert!(parse(name, value).is_ok(), "{}: {}", name, value);
        }
    }
}

#[test]
fn legacy_name_gives_the_same_property() {
    let modern = parse("gap", "4px 8px");
    let legacy = parse("grid-gap", "4px 8px");
    assert_eq!(
        modern,
        Ok(Property::Known(
            PropertyId::Gap,
            Payload::Single(Value::Gap(Box::new(px(4.0)), Box::new(px(8.0))))
        ))
    );
    assert_eq!(legacy, modern);
    assert_eq!(parse("grid-row-gap", "4px"), parse("row-gap", "4px"));
    assert_eq!(parse("grid-column-gap", "4px"), parse("column-gap", "4px"));
    assert_eq!(
        parse("grid-row-gap", "4px"),
        Ok(Property::Known(PropertyId::RowGap, Payload::Single(px(4.0))))
    );
}

#[test]
fn legacy_name_is_kept_by_the_fallback() {
    assert_eq!(parse("grid-gap", "wide"), Ok(custom("grid-gap", "wide")));
}

#[test]
fn list_keeps_order_and_multiplicity() {
    let property = parse("transition", " color 1s, opacity 2s").unwrap();
    assert_eq!(
        property,
        Property::Known(
            PropertyId::Transition,
            Payload::List(vec![
                Value::Transition("color".to_string(), 1.0),
                Value::Transition("opacity".to_string(), 2.0),
            ])
        )
    );
    assert_eq!(write(&property, true), "transition:color 1s,opacity 2s");
    assert_eq!(write(&property, false), "transition: color 1s, opacity 2s");
}

#[test]
fn list_of_equal_items_keeps_them_all() {
    assert_eq!(
        parse("transition-duration", "1s,1s , 1s"),
        Ok(Property::Known(
            PropertyId::TransitionDuration,
            Payload::List(vec![Value::Time(1.0), Value::Time(1.0), Value::Time(1.0)])
        ))
    );
}

#[test]
fn comma_inside_a_function_does_not_split_the_list() {
    assert_eq!(
        parse("background-image", "url(\"a,b.png\"), url(c.png)"),
        Ok(Property::Known(
            PropertyId::BackgroundImage,
            Payload::List(vec![Value::Url("a,b.png".to_string()), Value::Url("c.png".to_string())])
        ))
    );
}

#[test]
fn font_family_is_a_list() {
    assert_eq!(
        parse("font-family", "Helvetica, \"Times New Roman\" ,serif"),
        Ok(Property::Known(
            PropertyId::FontFamily,
            Payload::List(vec![
                Value::Family("Helvetica".to_string()),
                Value::Family("Times New Roman".to_string()),
                Value::Family("serif".to_string()),
            ])
        ))
    );
    assert_eq!(parse("font-family", "Helvetica, 12"), Ok(custom("font-family", "Helvetica, 12")));
    assert_eq!(parse("font-family", "12"), Ok(custom("font-family", "12")));
}

#[test]
fn custom_property_is_passed_through() {
    assert_eq!(parse("--my-var", " 10px  20px"), Ok(custom("--my-var", "10px  20px")));
    assert_eq!(parse("--my-var", "10px  20px \n"), Ok(custom("--my-var", "10px  20px")));
    assert_eq!(parse("-webkit-thing", "a(b, c) d"), Ok(custom("-webkit-thing", "a(b, c) d")));
    assert_eq!(parse("--My-Var", "x"), Ok(custom("--My-Var", "x")));
}

#[test]
fn custom_property_skips_leading_comments() {
    assert_eq!(parse("--x", " /* note */ a /* kept */ b "), Ok(custom("--x", "a /* kept */ b")));
}

#[test]
fn value_ends_at_the_delimiter_of_the_declaration() {
    let mut input = Parser::new("opacity: not-a-number ; color: red");
    assert_eq!(input.expect_ident().map(|name| name.to_string()), Ok("opacity".to_string()));
    assert!(input.expect_colon().is_ok());
    let property = input.parse_until_before(Delimiter::Semicolon, |value| {
        Property::<Value>::parse("opacity", value).map_err(|_| ParseError::<()>::custom(()))
    });
    assert_eq!(property, Ok(custom("opacity", "not-a-number")));
    assert!(input.expect_semicolon().is_ok());
    assert_eq!(input.expect_ident().map(|name| name.to_string()), Ok("color".to_string()));
}

#[test]
fn list_ends_at_the_delimiter_of_the_declaration() {
    let mut input = Parser::new("1s, 2s; x");
    let property = input.parse_until_before(Delimiter::Semicolon, |value| {
        Property::<Value>::parse("transition-delay", value).map_err(|_| ParseError::<()>::custom(()))
    });
    assert_eq!(
        property,
        Ok(Property::Known(
            PropertyId::TransitionDelay,
            Payload::List(vec![Value::Time(1.0), Value::Time(2.0)])
        ))
    );
    assert!(input.expect_semicolon().is_ok());
}

#[test]
fn empty_value_before_the_delimiter_is_a_failure() {
    let mut input = Parser::new("; x");
    let property = input.parse_until_before(Delimiter::Semicolon, |value| {
        Property::<Value>::parse("opacity", value).map_err(|_| ParseError::<()>::custom(()))
    });
    assert!(property.is_err());
}

#[test]
fn parse_list_reads_items_up_to_each_comma() {
    let mut input = Parser::new(" 1s , 20ms");
    assert_eq!(
        parse_list::<Value>(&mut input, ValueKind::Time),
        Some(vec![Value::Time(1.0), Value::Time(0.02)])
    );
    assert!(input.is_exhausted());
    let mut input = Parser::new("1s, slow");
    assert_eq!(parse_list::<Value>(&mut input, ValueKind::Time), None);
    let mut input = Parser::new("");
    assert_eq!(parse_list::<Value>(&mut input, ValueKind::Time), None);
}

#[test]
fn single_value_is_written_after_the_name() {
    let property = Property::Known(PropertyId::Opacity, Payload::Single(Value::Number(0.5)));
    assert_eq!(write(&property, true), "opacity:0.5");
    assert_eq!(write(&property, false), "opacity: 0.5");
}

#[test]
fn list_of_one_has_no_comma() {
    let property =
        Property::Known(PropertyId::BackgroundImage, Payload::List(vec![Value::Url("a.png".to_string())]));
    assert_eq!(write(&property, true), "background-image:url(a.png)");
    assert_eq!(write(&property, false), "background-image: url(a.png)");
}

#[test]
fn list_without_items_writes_the_name_alone() {
    let property: Property<Value> = Property::Known(PropertyId::BackgroundImage, Payload::List(vec![]));
    assert_eq!(write(&property, true), "background-image:");
}

#[test]
fn custom_property_is_written_as_kept() {
    assert_eq!(write(&custom("--my-var", "10px  20px"), true), "--my-var:10px  20px");
    assert_eq!(write(&custom("--my-var", "10px  20px"), false), "--my-var: 10px  20px");
    assert_eq!(write(&custom("opacity", "not-a-number"), false), "opacity: not-a-number");
}

#[test]
fn legacy_name_is_written_as_the_modern_name() {
    let property = parse("grid-gap", "4px 8px").unwrap();
    assert_eq!(write(&property, true), "gap:4px 8px");
}

#[test]
fn written_property_is_appended_to_the_printer() {
    let mut dest = Printer::new(true);
    dest.write_str("a{");
    parse("color", "red").unwrap().to_css(&mut dest);
    dest.write_char(';');
    parse("opacity", "1").unwrap().to_css(&mut dest);
    dest.write_char('}');
    assert_eq!(dest.as_str(), "a{color:red;opacity:1}");
}

#[test]
fn written_property_parses_back() {
    let declarations = [
        ("opacity", "0.25"),
        ("color", "BLUE"),
        ("gap", "4px 8px"),
        ("grid-gap", "4px"),
        ("flex", "1 0"),
        ("transition", "color 1s, opacity 2s"),
        ("background-image", "url(a.png),url(b.png)"),
        ("font-family", "a, b, c"),
        ("animation-delay", "500ms"),
    ];
    for (name, value) in declarations {
        for minify in [true, false] {
            let property = parse(name, value).unwrap();
            assert!(matches!(property, Property::Known(..)), "{}", name);
            let text = write(&property, minify);
            let (written_name, written_value) = text.split_once(':').unwrap();
            assert_eq!(parse(written_name, written_value), Ok(property));
        }
    }
}

#[test]
fn written_custom_property_parses_back() {
    for minify in [true, false] {
        let property = parse("--my-var", " 10px  20px ").unwrap();
        let text = write(&property, minify);
        let (written_name, written_value) = text.split_once(':').unwrap();
        assert_eq!(parse(written_name, written_value), Ok(property));
    }
}

#[test]
fn declaration_is_parsed_from_text() {
    assert_eq!(
        Property::<Value>::parse_str("opacity", "0.5"),
        Ok(Property::Known(PropertyId::Opacity, Payload::Single(Value::Number(0.5))))
    );
    assert_eq!(
        Property::<Value>::parse_str("transition-delay", "1s, 2s"),
        Ok(Property::Known(
            PropertyId::TransitionDelay,
            Payload::List(vec![Value::Time(1.0), Value::Time(2.0)])
        ))
    );
    assert_eq!(Property::<Value>::parse_str("opacity", " half "), Ok(custom("opacity", "half")));
    assert_eq!(Property::<Value>::parse_str("--x", "a; b"), Ok(custom("--x", "a; b")));
    assert_eq!(Property::<Value>::parse_str("color", "red 4px"), parse("color", "red"));
    assert_eq!(Property::<Value>::parse_str("opacity", ""), Err(ParseFailure));
}

#[test]
fn block_left_pending_is_passed_over() {
    let mut input = Parser::new("foo(1, 2) bar");
    assert!(matches!(input.next(), Ok(Token::Function(_))));
    let property: Result<Property<Value>, ParseFailure> = Property::parse("--x", &mut input);
    assert_eq!(property, Ok(custom("--x", "bar")));
    let mut input = Parser::new("foo(1, 2) 3");
    assert!(matches!(input.next(), Ok(Token::Function(_))));
    let property: Result<Property<Value>, ParseFailure> = Property::parse("opacity", &mut input);
    assert_eq!(property, Ok(Property::Known(PropertyId::Opacity, Payload::Single(Value::Number(3.0)))));
}

#[test]
fn unbalanced_and_broken_tokens_are_kept_raw() {
    assert_eq!(parse("--x", "a) b"), Ok(custom("--x", "a) b")));
    assert_eq!(parse("--x", "(a"), Ok(custom("--x", "(a")));
    assert_eq!(parse("--x", "\"open\n"), Ok(custom("--x", "\"open")));
    assert_eq!(parse("opacity", "url( a b )"), Ok(custom("opacity", "url( a b )")));
}

#[test]
fn comments_and_white_space_around_items_are_passed_over() {
    assert_eq!(
        parse("transition-delay", " /* a */ 1s /* b */ , /* c */ 2s /* d */ "),
        Ok(Property::Known(
            PropertyId::TransitionDelay,
            Payload::List(vec![Value::Time(1.0), Value::Time(2.0)])
        ))
    );
    assert_eq!(parse("transition-delay", "1s, "), Ok(custom("transition-delay", "1s,")));
    assert_eq!(parse("transition-delay", "1s,,2s"), Ok(custom("transition-delay", "1s,,2s")));
    assert_eq!(
        parse("font-family", " /* a */ x /* b */ , y "),
        Ok(Property::Known(
            PropertyId::FontFamily,
            Payload::List(vec![Value::Family("x".to_string()), Value::Family("y".to_string())])
        ))
    );
}
