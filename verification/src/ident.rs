//! The dispatch table: every known property, its name, the grammar of its value,
//! and whether the value is one item or a comma-separated list.

use vstd::prelude::*;

verus! {

/// How many properties the table knows.
pub const PROPERTY_COUNT: usize = 183;

/// The identity of a known property.
#[derive(Clone, Copy, Debug, PartialEq, Eq, Hash, Structural)]
pub enum PropertyId {
    BackgroundColor,
    BackgroundImage,
    BackgroundPositionX,
    BackgroundPositionY,
    BackgroundPosition,
    BackgroundSize,
    BackgroundRepeat,
    BackgroundAttachment,
    BackgroundClip,
    BackgroundOrigin,
    Background,
    BoxShadow,
    Opacity,
    Color,
    Width,
    Height,
    MinWidth,
    MinHeight,
    MaxWidth,
    MaxHeight,
    BlockSize,
    InlineSize,
    MinBlockSize,
    MinInlineSize,
    MaxBlockSize,
    MaxInlineSize,
    Top,
    Bottom,
    Left,
    Right,
    InsetBlockStart,
    InsetBlockEnd,
    InsetInlineStart,
    InsetInlineEnd,
    BorderTopColor,
    BorderBottomColor,
    BorderLeftColor,
    BorderRightColor,
    BorderBlockStartColor,
    BorderBlockEndColor,
    BorderInlineStartColor,
    BorderInlineEndColor,
    BorderTopStyle,
    BorderBottomStyle,
    BorderLeftStyle,
    BorderRightStyle,
    BorderBlockStartStyle,
    BorderBlockEndStyle,
    BorderInlineStartStyle,
    BorderInlineEndStyle,
    BorderTopWidth,
    BorderBottomWidth,
    BorderLeftWidth,
    BorderRightWidth,
    BorderBlockStartWidth,
    BorderBlockEndWidth,
    BorderInlineStartWidth,
    BorderInlineEndWidth,
    BorderTopLeftRadius,
    BorderTopRightRadius,
    BorderBottomLeftRadius,
    BorderBottomRightRadius,
    BorderStartStartRadius,
    BorderStartEndRadius,
    BorderEndStartRadius,
    BorderEndEndRadius,
    BorderRadius,
    BorderImageSource,
    BorderImageOutset,
    BorderImageRepeat,
    BorderImageWidth,
    BorderImageSlice,
    BorderImage,
    BorderColor,
    BorderStyle,
    BorderWidth,
    BorderBlockColor,
    BorderBlockStyle,
    BorderBlockWidth,
    BorderInlineColor,
    BorderInlineStyle,
    BorderInlineWidth,
    Border,
    BorderTop,
    BorderBottom,
    BorderLeft,
    BorderRight,
    BorderBlock,
    BorderBlockStart,
    BorderBlockEnd,
    BorderInline,
    BorderInlineStart,
    BorderInlineEnd,
    Outline,
    OutlineColor,
    OutlineStyle,
    OutlineWidth,
    FlexDirection,
    FlexWrap,
    FlexFlow,
    FlexGrow,
    FlexShrink,
    FlexBasis,
    Flex,
    AlignContent,
    JustifyContent,
    PlaceContent,
    AlignSelf,
    JustifySelf,
    PlaceSelf,
    AlignItems,
    JustifyItems,
    PlaceItems,
    RowGap,
    ColumnGap,
    Gap,
    MarginTop,
    MarginBottom,
    MarginLeft,
    MarginRight,
    MarginBlockStart,
    MarginBlockEnd,
    MarginInlineStart,
    MarginInlineEnd,
    MarginBlock,
    MarginInline,
    Margin,
    PaddingTop,
    PaddingBottom,
    PaddingLeft,
    PaddingRight,
    PaddingBlockStart,
    PaddingBlockEnd,
    PaddingInlineStart,
    PaddingInlineEnd,
    PaddingBlock,
    PaddingInline,
    Padding,
    ScrollMarginTop,
    ScrollMarginBottom,
    ScrollMarginLeft,
    ScrollMarginRight,
    ScrollMarginBlockStart,
    ScrollMarginBlockEnd,
    ScrollMarginInlineStart,
    ScrollMarginInlineEnd,
    ScrollMarginBlock,
    ScrollMarginInline,
    ScrollMargin,
    ScrollPaddingTop,
    ScrollPaddingBottom,
    ScrollPaddingLeft,
    ScrollPaddingRight,
    ScrollPaddingBlockStart,
    ScrollPaddingBlockEnd,
    ScrollPaddingInlineStart,
    ScrollPaddingInlineEnd,
    ScrollPaddingBlock,
    ScrollPaddingInline,
    ScrollPadding,
    FontWeight,
    FontSize,
    FontStretch,
    FontFamily,
    FontStyle,
    FontVariantCaps,
    LineHeight,
    Font,
    TransitionProperty,
    TransitionDuration,
    TransitionDelay,
    TransitionTimingFunction,
    Transition,
    AnimationName,
    AnimationDuration,
    AnimationTimingFunction,
    AnimationIterationCount,
    AnimationDirection,
    AnimationPlayState,
    AnimationDelay,
    AnimationFillMode,
    Animation,
    Transform,
}

/// The grammar of a value: one for each value type that a property can carry.
#[derive(Clone, Copy, Debug, PartialEq, Eq, Hash, Structural)]
pub enum ValueKind {
    CssColor,
    Image,
    HorizontalPosition,
    VerticalPosition,
    BackgroundPosition,
    BackgroundSize,
    BackgroundRepeat,
    BackgroundAttachment,
    BackgroundBox,
    Background,
    BoxShadow,
    AlphaValue,
    Size,
    MinMaxSize,
    LengthPercentageOrAuto,
    BorderStyle,
    BorderSideWidth,
    LengthPercentageSize2D,
    BorderRadius,
    LengthOrNumberRect,
    BorderImageRepeat,
    BorderImageSideWidthRect,
    BorderImageSlice,
    BorderImage,
    CssColorRect,
    BorderStyleRect,
    BorderSideWidthRect,
    Border,
    Outline,
    OutlineStyle,
    FlexDirection,
    FlexWrap,
    FlexFlow,
    Number,
    Flex,
    AlignContent,
    JustifyContent,
    PlaceContent,
    AlignSelf,
    JustifySelf,
    PlaceSelf,
    AlignItems,
    JustifyItems,
    PlaceItems,
    GapValue,
    Gap,
    LengthPercentageOrAutoSize2D,
    LengthPercentageOrAutoRect,
    FontWeight,
    FontSize,
    FontStretch,
    FontFamily,
    FontStyle,
    FontVariantCaps,
    LineHeight,
    Font,
    CustomIdent,
    Time,
    EasingFunction,
    Transition,
    AnimationName,
    AnimationIterationCount,
    AnimationDirection,
    AnimationPlayState,
    AnimationFillMode,
    Animation,
    TransformList,
}

/// How many values a property carries, and how a list of them is best stored.
#[derive(Clone, Copy, Debug, PartialEq, Eq, Hash, Structural)]
pub enum Multiplicity {
    /// Exactly one value.
    Single,
    /// Comma-separated values, most often a single one.
    CompactList,
    /// Comma-separated values, most often several.
    GrowableList,
}

impl Multiplicity {
    /// Whether the value is a comma-separated list.
    pub open spec fn spec_is_list(self) -> bool {
        self != Multiplicity::Single
    }

    /// Whether the value is a comma-separated list.
    #[verifier::when_used_as_spec(spec_is_list)]
    pub fn is_list(self) -> (r: bool)
        ensures
            r == self.spec_is_list(),
    {
        match self {
            Multiplicity::Single => false,
            Multiplicity::CompactList => true,
            Multiplicity::GrowableList => true,
        }
    }
}

impl PropertyId {
    /// The place of a property in the table, counted from zero.
    pub open spec fn spec_index(self) -> usize {
        match self {
            PropertyId::BackgroundColor => 0,
            PropertyId::BackgroundImage => 1,
            PropertyId::BackgroundPositionX => 2,
            PropertyId::BackgroundPositionY => 3,
            PropertyId::BackgroundPosition => 4,
            PropertyId::BackgroundSize => 5,
            PropertyId::BackgroundRepeat => 6,
            PropertyId::BackgroundAttachment => 7,
            PropertyId::BackgroundClip => 8,
            PropertyId::BackgroundOrigin => 9,
            PropertyId::Background => 10,
            PropertyId::BoxShadow => 11,
            PropertyId::Opacity => 12,
            PropertyId::Color => 13,
            PropertyId::Width => 14,
            PropertyId::Height => 15,
            PropertyId::MinWidth => 16,
            PropertyId::MinHeight => 17,
            PropertyId::MaxWidth => 18,
            PropertyId::MaxHeight => 19,
            PropertyId::BlockSize => 20,
            PropertyId::InlineSize => 21,
            PropertyId::MinBlockSize => 22,
            PropertyId::MinInlineSize => 23,
            PropertyId::MaxBlockSize => 24,
            PropertyId::MaxInlineSize => 25,
            PropertyId::Top => 26,
            PropertyId::Bottom => 27,
            PropertyId::Left => 28,
            PropertyId::Right => 29,
            PropertyId::InsetBlockStart => 30,
            PropertyId::InsetBlockEnd => 31,
            PropertyId::InsetInlineStart => 32,
            PropertyId::InsetInlineEnd => 33,
            PropertyId::BorderTopColor => 34,
            PropertyId::BorderBottomColor => 35,
            PropertyId::BorderLeftColor => 36,
            PropertyId::BorderRightColor => 37,
            PropertyId::BorderBlockStartColor => 38,
            PropertyId::BorderBlockEndColor => 39,
            PropertyId::BorderInlineStartColor => 40,
            PropertyId::BorderInlineEndColor => 41,
            PropertyId::BorderTopStyle => 42,
            PropertyId::BorderBottomStyle => 43,
            PropertyId::BorderLeftStyle => 44,
            PropertyId::BorderRightStyle => 45,
            PropertyId::BorderBlockStartStyle => 46,
            PropertyId::BorderBlockEndStyle => 47,
            PropertyId::BorderInlineStartStyle => 48,
            PropertyId::BorderInlineEndStyle => 49,
            PropertyId::BorderTopWidth => 50,
            PropertyId::BorderBottomWidth => 51,
            PropertyId::BorderLeftWidth => 52,
            PropertyId::BorderRightWidth => 53,
            PropertyId::BorderBlockStartWidth => 54,
            PropertyId::BorderBlockEndWidth => 55,
            PropertyId::BorderInlineStartWidth => 56,
            PropertyId::BorderInlineEndWidth => 57,
            PropertyId::BorderTopLeftRadius => 58,
            PropertyId::BorderTopRightRadius => 59,
            PropertyId::BorderBottomLeftRadius => 60,
            PropertyId::BorderBottomRightRadius => 61,
            PropertyId::BorderStartStartRadius => 62,
            PropertyId::BorderStartEndRadius => 63,
            PropertyId::BorderEndStartRadius => 64,
            PropertyId::BorderEndEndRadius => 65,
            PropertyId::BorderRadius => 66,
            PropertyId::BorderImageSource => 67,
            PropertyId::BorderImageOutset => 68,
            PropertyId::BorderImageRepeat => 69,
            PropertyId::BorderImageWidth => 70,
            PropertyId::BorderImageSlice => 71,
            PropertyId::BorderImage => 72,
            PropertyId::BorderColor => 73,
            PropertyId::BorderStyle => 74,
            PropertyId::BorderWidth => 75,
            PropertyId::BorderBlockColor => 76,
            PropertyId::BorderBlockStyle => 77,
            PropertyId::BorderBlockWidth => 78,
            PropertyId::BorderInlineColor => 79,
            PropertyId::BorderInlineStyle => 80,
            PropertyId::BorderInlineWidth => 81,
            PropertyId::Border => 82,
            PropertyId::BorderTop => 83,
            PropertyId::BorderBottom => 84,
            PropertyId::BorderLeft => 85,
            PropertyId::BorderRight => 86,
            PropertyId::BorderBlock => 87,
            PropertyId::BorderBlockStart => 88,
            PropertyId::BorderBlockEnd => 89,
            PropertyId::BorderInline => 90,
            PropertyId::BorderInlineStart => 91,
            PropertyId::BorderInlineEnd => 92,
            PropertyId::Outline => 93,
            PropertyId::OutlineColor => 94,
            PropertyId::OutlineStyle => 95,
            PropertyId::OutlineWidth => 96,
            PropertyId::FlexDirection => 97,
            PropertyId::FlexWrap => 98,
            PropertyId::FlexFlow => 99,
            PropertyId::FlexGrow => 100,
            PropertyId::FlexShrink => 101,
            PropertyId::FlexBasis => 102,
            PropertyId::Flex => 103,
            PropertyId::AlignContent => 104,
            PropertyId::JustifyContent => 105,
            PropertyId::PlaceContent => 106,
            PropertyId::AlignSelf => 107,
            PropertyId::JustifySelf => 108,
            PropertyId::PlaceSelf => 109,
            PropertyId::AlignItems => 110,
            PropertyId::JustifyItems => 111,
            PropertyId::PlaceItems => 112,
            PropertyId::RowGap => 113,
            PropertyId::ColumnGap => 114,
            PropertyId::Gap => 115,
            PropertyId::MarginTop => 116,
            PropertyId::MarginBottom => 117,
            PropertyId::MarginLeft => 118,
            PropertyId::MarginRight => 119,
            PropertyId::MarginBlockStart => 120,
            PropertyId::MarginBlockEnd => 121,
            PropertyId::MarginInlineStart => 122,
            PropertyId::MarginInlineEnd => 123,
            PropertyId::MarginBlock => 124,
            PropertyId::MarginInline => 125,
            PropertyId::Margin => 126,
            PropertyId::PaddingTop => 127,
            PropertyId::PaddingBottom => 128,
            PropertyId::PaddingLeft => 129,
            PropertyId::PaddingRight => 130,
            PropertyId::PaddingBlockStart => 131,
            PropertyId::PaddingBlockEnd => 132,
            PropertyId::PaddingInlineStart => 133,
            PropertyId::PaddingInlineEnd => 134,
            PropertyId::PaddingBlock => 135,
            PropertyId::PaddingInline => 136,
            PropertyId::Padding => 137,
            PropertyId::ScrollMarginTop => 138,
            PropertyId::ScrollMarginBottom => 139,
            PropertyId::ScrollMarginLeft => 140,
            PropertyId::ScrollMarginRight => 141,
            PropertyId::ScrollMarginBlockStart => 142,
            PropertyId::ScrollMarginBlockEnd => 143,
            PropertyId::ScrollMarginInlineStart => 144,
            PropertyId::ScrollMarginInlineEnd => 145,
            PropertyId::ScrollMarginBlock => 146,
            PropertyId::ScrollMarginInline => 147,
            PropertyId::ScrollMargin => 148,
            PropertyId::ScrollPaddingTop => 149,
            PropertyId::ScrollPaddingBottom => 150,
            PropertyId::ScrollPaddingLeft => 151,
            PropertyId::ScrollPaddingRight => 152,
            PropertyId::ScrollPaddingBlockStart => 153,
            PropertyId::ScrollPaddingBlockEnd => 154,
            PropertyId::ScrollPaddingInlineStart => 155,
            PropertyId::ScrollPaddingInlineEnd => 156,
            PropertyId::ScrollPaddingBlock => 157,
            PropertyId::ScrollPaddingInline => 158,
            PropertyId::ScrollPadding => 159,
            PropertyId::FontWeight => 160,
            PropertyId::FontSize => 161,
            PropertyId::FontStretch => 162,
            PropertyId::FontFamily => 163,
            PropertyId::FontStyle => 164,
            PropertyId::FontVariantCaps => 165,
            PropertyId::LineHeight => 166,
            PropertyId::Font => 167,
            PropertyId::TransitionProperty => 168,
            PropertyId::TransitionDuration => 169,
            PropertyId::TransitionDelay => 170,
            PropertyId::TransitionTimingFunction => 171,
            PropertyId::Transition => 172,
            PropertyId::AnimationName => 173,
            PropertyId::AnimationDuration => 174,
            PropertyId::AnimationTimingFunction => 175,
            PropertyId::AnimationIterationCount => 176,
            PropertyId::AnimationDirection => 177,
            PropertyId::AnimationPlayState => 178,
            PropertyId::AnimationDelay => 179,
            PropertyId::AnimationFillMode => 180,
            PropertyId::Animation => 181,
            PropertyId::Transform => 182,
        }
    }

    /// The place of a property in the table, counted from zero.
    #[verifier::when_used_as_spec(spec_index)]
    pub fn index(self) -> (i: usize)
        ensures
            i == self.spec_index(),
            i < PROPERTY_COUNT,
    {
        match self {
            PropertyId::BackgroundColor => 0,
            PropertyId::BackgroundImage => 1,
            PropertyId::BackgroundPositionX => 2,
            PropertyId::BackgroundPositionY => 3,
            PropertyId::BackgroundPosition => 4,
            PropertyId::BackgroundSize => 5,
            PropertyId::BackgroundRepeat => 6,
            PropertyId::BackgroundAttachment => 7,
            PropertyId::BackgroundClip => 8,
            PropertyId::BackgroundOrigin => 9,
            PropertyId::Background => 10,
            PropertyId::BoxShadow => 11,
            PropertyId::Opacity => 12,
            PropertyId::Color => 13,
            PropertyId::Width => 14,
            PropertyId::Height => 15,
            PropertyId::MinWidth => 16,
            PropertyId::MinHeight => 17,
            PropertyId::MaxWidth => 18,
            PropertyId::MaxHeight => 19,
            PropertyId::BlockSize => 20,
            PropertyId::InlineSize => 21,
            PropertyId::MinBlockSize => 22,
            PropertyId::MinInlineSize => 23,
            PropertyId::MaxBlockSize => 24,
            PropertyId::MaxInlineSize => 25,
            PropertyId::Top => 26,
            PropertyId::Bottom => 27,
            PropertyId::Left => 28,
            PropertyId::Right => 29,
            PropertyId::InsetBlockStart => 30,
            PropertyId::InsetBlockEnd => 31,
            PropertyId::InsetInlineStart => 32,
            PropertyId::InsetInlineEnd => 33,
            PropertyId::BorderTopColor => 34,
            PropertyId::BorderBottomColor => 35,
            PropertyId::BorderLeftColor => 36,
            PropertyId::BorderRightColor => 37,
            PropertyId::BorderBlockStartColor => 38,
            PropertyId::BorderBlockEndColor => 39,
            PropertyId::BorderInlineStartColor => 40,
            PropertyId::BorderInlineEndColor => 41,
            PropertyId::BorderTopStyle => 42,
            PropertyId::BorderBottomStyle => 43,
            PropertyId::BorderLeftStyle => 44,
            PropertyId::BorderRightStyle => 45,
            PropertyId::BorderBlockStartStyle => 46,
            PropertyId::BorderBlockEndStyle => 47,
            PropertyId::BorderInlineStartStyle => 48,
            PropertyId::BorderInlineEndStyle => 49,
            PropertyId::BorderTopWidth => 50,
            PropertyId::BorderBottomWidth => 51,
            PropertyId::BorderLeftWidth => 52,
            PropertyId::BorderRightWidth => 53,
            PropertyId::BorderBlockStartWidth => 54,
            PropertyId::BorderBlockEndWidth => 55,
            PropertyId::BorderInlineStartWidth => 56,
            PropertyId::BorderInlineEndWidth => 57,
            PropertyId::BorderTopLeftRadius => 58,
            PropertyId::BorderTopRightRadius => 59,
            PropertyId::BorderBottomLeftRadius => 60,
            PropertyId::BorderBottomRightRadius => 61,
            PropertyId::BorderStartStartRadius => 62,
            PropertyId::BorderStartEndRadius => 63,
            PropertyId::BorderEndStartRadius => 64,
            PropertyId::BorderEndEndRadius => 65,
            PropertyId::BorderRadius => 66,
            PropertyId::BorderImageSource => 67,
            PropertyId::BorderImageOutset => 68,
            PropertyId::BorderImageRepeat => 69,
            PropertyId::BorderImageWidth => 70,
            PropertyId::BorderImageSlice => 71,
            PropertyId::BorderImage => 72,
            PropertyId::BorderColor => 73,
            PropertyId::BorderStyle => 74,
            PropertyId::BorderWidth => 75,
            PropertyId::BorderBlockColor => 76,
            PropertyId::BorderBlockStyle => 77,
            PropertyId::BorderBlockWidth => 78,
            PropertyId::BorderInlineColor => 79,
            PropertyId::BorderInlineStyle => 80,
            PropertyId::BorderInlineWidth => 81,
            PropertyId::Border => 82,
            PropertyId::BorderTop => 83,
            PropertyId::BorderBottom => 84,
            PropertyId::BorderLeft => 85,
            PropertyId::BorderRight => 86,
            PropertyId::BorderBlock => 87,
            PropertyId::BorderBlockStart => 88,
            PropertyId::BorderBlockEnd => 89,
            PropertyId::BorderInline => 90,
            PropertyId::BorderInlineStart => 91,
            PropertyId::BorderInlineEnd => 92,
            PropertyId::Outline => 93,
            PropertyId::OutlineColor => 94,
            PropertyId::OutlineStyle => 95,
            PropertyId::OutlineWidth => 96,
            PropertyId::FlexDirection => 97,
            PropertyId::FlexWrap => 98,
            PropertyId::FlexFlow => 99,
            PropertyId::FlexGrow => 100,
            PropertyId::FlexShrink => 101,
            PropertyId::FlexBasis => 102,
            PropertyId::Flex => 103,
            PropertyId::AlignContent => 104,
            PropertyId::JustifyContent => 105,
            PropertyId::PlaceContent => 106,
            PropertyId::AlignSelf => 107,
            PropertyId::JustifySelf => 108,
            PropertyId::PlaceSelf => 109,
            PropertyId::AlignItems => 110,
            PropertyId::JustifyItems => 111,
            PropertyId::PlaceItems => 112,
            PropertyId::RowGap => 113,
            PropertyId::ColumnGap => 114,
            PropertyId::Gap => 115,
            PropertyId::MarginTop => 116,
            PropertyId::MarginBottom => 117,
            PropertyId::MarginLeft => 118,
            PropertyId::MarginRight => 119,
            PropertyId::MarginBlockStart => 120,
            PropertyId::MarginBlockEnd => 121,
            PropertyId::MarginInlineStart => 122,
            PropertyId::MarginInlineEnd => 123,
            PropertyId::MarginBlock => 124,
            PropertyId::MarginInline => 125,
            PropertyId::Margin => 126,
            PropertyId::PaddingTop => 127,
            PropertyId::PaddingBottom => 128,
            PropertyId::PaddingLeft => 129,
            PropertyId::PaddingRight => 130,
            PropertyId::PaddingBlockStart => 131,
            PropertyId::PaddingBlockEnd => 132,
            PropertyId::PaddingInlineStart => 133,
            PropertyId::PaddingInlineEnd => 134,
            PropertyId::PaddingBlock => 135,
            PropertyId::PaddingInline => 136,
            PropertyId::Padding => 137,
            PropertyId::ScrollMarginTop => 138,
            PropertyId::ScrollMarginBottom => 139,
            PropertyId::ScrollMarginLeft => 140,
            PropertyId::ScrollMarginRight => 141,
            PropertyId::ScrollMarginBlockStart => 142,
            PropertyId::ScrollMarginBlockEnd => 143,
            PropertyId::ScrollMarginInlineStart => 144,
            PropertyId::ScrollMarginInlineEnd => 145,
            PropertyId::ScrollMarginBlock => 146,
            PropertyId::ScrollMarginInline => 147,
            PropertyId::ScrollMargin => 148,
            PropertyId::ScrollPaddingTop => 149,
            PropertyId::ScrollPaddingBottom => 150,
            PropertyId::ScrollPaddingLeft => 151,
            PropertyId::ScrollPaddingRight => 152,
            PropertyId::ScrollPaddingBlockStart => 153,
            PropertyId::ScrollPaddingBlockEnd => 154,
            PropertyId::ScrollPaddingInlineStart => 155,
            PropertyId::ScrollPaddingInlineEnd => 156,
            PropertyId::ScrollPaddingBlock => 157,
            PropertyId::ScrollPaddingInline => 158,
            PropertyId::ScrollPadding => 159,
            PropertyId::FontWeight => 160,
            PropertyId::FontSize => 161,
            PropertyId::FontStretch => 162,
            PropertyId::FontFamily => 163,
            PropertyId::FontStyle => 164,
            PropertyId::FontVariantCaps => 165,
            PropertyId::LineHeight => 166,
            PropertyId::Font => 167,
            PropertyId::TransitionProperty => 168,
            PropertyId::TransitionDuration => 169,
            PropertyId::TransitionDelay => 170,
            PropertyId::TransitionTimingFunction => 171,
            PropertyId::Transition => 172,
            PropertyId::AnimationName => 173,
            PropertyId::AnimationDuration => 174,
            PropertyId::AnimationTimingFunction => 175,
            PropertyId::AnimationIterationCount => 176,
            PropertyId::AnimationDirection => 177,
            PropertyId::AnimationPlayState => 178,
            PropertyId::AnimationDelay => 179,
            PropertyId::AnimationFillMode => 180,
            PropertyId::Animation => 181,
            PropertyId::Transform => 182,
        }
    }

    /// The property at a place in the table, if the table reaches that far.
    pub fn from_index(i: usize) -> (found: Option<PropertyId>)
        ensures
            match found {
                Some(id) => id.spec_index() == i,
                None => i >= PROPERTY_COUNT,
            },
    {
        match i {
            0 => Some(PropertyId::BackgroundColor),
            1 => Some(PropertyId::BackgroundImage),
            2 => Some(PropertyId::BackgroundPositionX),
            3 => Some(PropertyId::BackgroundPositionY),
            4 => Some(PropertyId::BackgroundPosition),
            5 => Some(PropertyId::BackgroundSize),
            6 => Some(PropertyId::BackgroundRepeat),
            7 => Some(PropertyId::BackgroundAttachment),
            8 => Some(PropertyId::BackgroundClip),
            9 => Some(PropertyId::BackgroundOrigin),
            10 => Some(PropertyId::Background),
            11 => Some(PropertyId::BoxShadow),
            12 => Some(PropertyId::Opacity),
            13 => Some(PropertyId::Color),
            14 => Some(PropertyId::Width),
            15 => Some(PropertyId::Height),
            16 => Some(PropertyId::MinWidth),
            17 => Some(PropertyId::MinHeight),
            18 => Some(PropertyId::MaxWidth),
            19 => Some(PropertyId::MaxHeight),
            20 => Some(PropertyId::BlockSize),
            21 => Some(PropertyId::InlineSize),
            22 => Some(PropertyId::MinBlockSize),
            23 => Some(PropertyId::MinInlineSize),
            24 => Some(PropertyId::MaxBlockSize),
            25 => Some(PropertyId::MaxInlineSize),
            26 => Some(PropertyId::Top),
            27 => Some(PropertyId::Bottom),
            28 => Some(PropertyId::Left),
            29 => Some(PropertyId::Right),
            30 => Some(PropertyId::InsetBlockStart),
            31 => Some(PropertyId::InsetBlockEnd),
            32 => Some(PropertyId::InsetInlineStart),
            33 => Some(PropertyId::InsetInlineEnd),
            34 => Some(PropertyId::BorderTopColor),
            35 => Some(PropertyId::BorderBottomColor),
            36 => Some(PropertyId::BorderLeftColor),
            37 => Some(PropertyId::BorderRightColor),
            38 => Some(PropertyId::BorderBlockStartColor),
            39 => Some(PropertyId::BorderBlockEndColor),
            40 => Some(PropertyId::BorderInlineStartColor),
            41 => Some(PropertyId::BorderInlineEndColor),
            42 => Some(PropertyId::BorderTopStyle),
            43 => Some(PropertyId::BorderBottomStyle),
            44 => Some(PropertyId::BorderLeftStyle),
            45 => Some(PropertyId::BorderRightStyle),
            46 => Some(PropertyId::BorderBlockStartStyle),
            47 => Some(PropertyId::BorderBlockEndStyle),
            48 => Some(PropertyId::BorderInlineStartStyle),
            49 => Some(PropertyId::BorderInlineEndStyle),
            50 => Some(PropertyId::BorderTopWidth),
            51 => Some(PropertyId::BorderBottomWidth),
            52 => Some(PropertyId::BorderLeftWidth),
            53 => Some(PropertyId::BorderRightWidth),
            54 => Some(PropertyId::BorderBlockStartWidth),
            55 => Some(PropertyId::BorderBlockEndWidth),
            56 => Some(PropertyId::BorderInlineStartWidth),
            57 => Some(PropertyId::BorderInlineEndWidth),
            58 => Some(PropertyId::BorderTopLeftRadius),
            59 => Some(PropertyId::BorderTopRightRadius),
            60 => Some(PropertyId::BorderBottomLeftRadius),
            61 => Some(PropertyId::BorderBottomRightRadius),
            62 => Some(PropertyId::BorderStartStartRadius),
            63 => Some(PropertyId::BorderStartEndRadius),
            64 => Some(PropertyId::BorderEndStartRadius),
            65 => Some(PropertyId::BorderEndEndRadius),
            66 => Some(PropertyId::BorderRadius),
            67 => Some(PropertyId::BorderImageSource),
            68 => Some(PropertyId::BorderImageOutset),
            69 => Some(PropertyId::BorderImageRepeat),
            70 => Some(PropertyId::BorderImageWidth),
            71 => Some(PropertyId::BorderImageSlice),
            72 => Some(PropertyId::BorderImage),
            73 => Some(PropertyId::BorderColor),
            74 => Some(PropertyId::BorderStyle),
            75 => Some(PropertyId::BorderWidth),
            76 => Some(PropertyId::BorderBlockColor),
            77 => Some(PropertyId::BorderBlockStyle),
            78 => Some(PropertyId::BorderBlockWidth),
            79 => Some(PropertyId::BorderInlineColor),
            80 => Some(PropertyId::BorderInlineStyle),
            81 => Some(PropertyId::BorderInlineWidth),
            82 => Some(PropertyId::Border),
            83 => Some(PropertyId::BorderTop),
            84 => Some(PropertyId::BorderBottom),
            85 => Some(PropertyId::BorderLeft),
            86 => Some(PropertyId::BorderRight),
            87 => Some(PropertyId::BorderBlock),
            88 => Some(PropertyId::BorderBlockStart),
            89 => Some(PropertyId::BorderBlockEnd),
            90 => Some(PropertyId::BorderInline),
            91 => Some(PropertyId::BorderInlineStart),
            92 => Some(PropertyId::BorderInlineEnd),
            93 => Some(PropertyId::Outline),
            94 => Some(PropertyId::OutlineColor),
            95 => Some(PropertyId::OutlineStyle),
            96 => Some(PropertyId::OutlineWidth),
            97 => Some(PropertyId::FlexDirection),
            98 => Some(PropertyId::FlexWrap),
            99 => Some(PropertyId::FlexFlow),
            100 => Some(PropertyId::FlexGrow),
            101 => Some(PropertyId::FlexShrink),
            102 => Some(PropertyId::FlexBasis),
            103 => Some(PropertyId::Flex),
            104 => Some(PropertyId::AlignContent),
            105 => Some(PropertyId::JustifyContent),
            106 => Some(PropertyId::PlaceContent),
            107 => Some(PropertyId::AlignSelf),
            108 => Some(PropertyId::JustifySelf),
            109 => Some(PropertyId::PlaceSelf),
            110 => Some(PropertyId::AlignItems),
            111 => Some(PropertyId::JustifyItems),
            112 => Some(PropertyId::PlaceItems),
            113 => Some(PropertyId::RowGap),
            114 => Some(PropertyId::ColumnGap),
            115 => Some(PropertyId::Gap),
            116 => Some(PropertyId::MarginTop),
            117 => Some(PropertyId::MarginBottom),
            118 => Some(PropertyId::MarginLeft),
            119 => Some(PropertyId::MarginRight),
            120 => Some(PropertyId::MarginBlockStart),
            121 => Some(PropertyId::MarginBlockEnd),
            122 => Some(PropertyId::MarginInlineStart),
            123 => Some(PropertyId::MarginInlineEnd),
            124 => Some(PropertyId::MarginBlock),
            125 => Some(PropertyId::MarginInline),
            126 => Some(PropertyId::Margin),
            127 => Some(PropertyId::PaddingTop),
            128 => Some(PropertyId::PaddingBottom),
            129 => Some(PropertyId::PaddingLeft),
            130 => Some(PropertyId::PaddingRight),
            131 => Some(PropertyId::PaddingBlockStart),
            132 => Some(PropertyId::PaddingBlockEnd),
            133 => Some(PropertyId::PaddingInlineStart),
            134 => Some(PropertyId::PaddingInlineEnd),
            135 => Some(PropertyId::PaddingBlock),
            136 => Some(PropertyId::PaddingInline),
            137 => Some(PropertyId::Padding),
            138 => Some(PropertyId::ScrollMarginTop),
            139 => Some(PropertyId::ScrollMarginBottom),
            140 => Some(PropertyId::ScrollMarginLeft),
            141 => Some(PropertyId::ScrollMarginRight),
            142 => Some(PropertyId::ScrollMarginBlockStart),
            143 => Some(PropertyId::ScrollMarginBlockEnd),
            144 => Some(PropertyId::ScrollMarginInlineStart),
            145 => Some(PropertyId::ScrollMarginInlineEnd),
            146 => Some(PropertyId::ScrollMarginBlock),
            147 => Some(PropertyId::ScrollMarginInline),
            148 => Some(PropertyId::ScrollMargin),
            149 => Some(PropertyId::ScrollPaddingTop),
            150 => Some(PropertyId::ScrollPaddingBottom),
            151 => Some(PropertyId::ScrollPaddingLeft),
            152 => Some(PropertyId::ScrollPaddingRight),
            153 => Some(PropertyId::ScrollPaddingBlockStart),
            154 => Some(PropertyId::ScrollPaddingBlockEnd),
            155 => Some(PropertyId::ScrollPaddingInlineStart),
            156 => Some(PropertyId::ScrollPaddingInlineEnd),
            157 => Some(PropertyId::ScrollPaddingBlock),
            158 => Some(PropertyId::ScrollPaddingInline),
            159 => Some(PropertyId::ScrollPadding),
            160 => Some(PropertyId::FontWeight),
            161 => Some(PropertyId::FontSize),
            162 => Some(PropertyId::FontStretch),
            163 => Some(PropertyId::FontFamily),
            164 => Some(PropertyId::FontStyle),
            165 => Some(PropertyId::FontVariantCaps),
            166 => Some(PropertyId::LineHeight),
            167 => Some(PropertyId::Font),
            168 => Some(PropertyId::TransitionProperty),
            169 => Some(PropertyId::TransitionDuration),
            170 => Some(PropertyId::TransitionDelay),
            171 => Some(PropertyId::TransitionTimingFunction),
            172 => Some(PropertyId::Transition),
            173 => Some(PropertyId::AnimationName),
            174 => Some(PropertyId::AnimationDuration),
            175 => Some(PropertyId::AnimationTimingFunction),
            176 => Some(PropertyId::AnimationIterationCount),
            177 => Some(PropertyId::AnimationDirection),
            178 => Some(PropertyId::AnimationPlayState),
            179 => Some(PropertyId::AnimationDelay),
            180 => Some(PropertyId::AnimationFillMode),
            181 => Some(PropertyId::Animation),
            182 => Some(PropertyId::Transform),
            _ => None,
        }
    }

    /// The canonical name of a property, as a sequence of characters.
    pub open spec fn name_text(self) -> Seq<char> {
        match self {
            PropertyId::BackgroundColor => "background-color"@,
            PropertyId::BackgroundImage => "background-image"@,
            PropertyId::BackgroundPositionX => "background-position-x"@,
            PropertyId::BackgroundPositionY => "background-position-y"@,
            PropertyId::BackgroundPosition => "background-position"@,
            PropertyId::BackgroundSize => "background-size"@,
            PropertyId::BackgroundRepeat => "background-repeat"@,
            PropertyId::BackgroundAttachment => "background-attachment"@,
            PropertyId::BackgroundClip => "background-clip"@,
            PropertyId::BackgroundOrigin => "background-origin"@,
            PropertyId::Background => "background"@,
            PropertyId::BoxShadow => "box-shadow"@,
            PropertyId::Opacity => "opacity"@,
            PropertyId::Color => "color"@,
            PropertyId::Width => "width"@,
            PropertyId::Height => "height"@,
            PropertyId::MinWidth => "min-width"@,
            PropertyId::MinHeight => "min-height"@,
            PropertyId::MaxWidth => "max-width"@,
            PropertyId::MaxHeight => "max-height"@,
            PropertyId::BlockSize => "block-size"@,
            PropertyId::InlineSize => "inline-size"@,
            PropertyId::MinBlockSize => "min-block-size"@,
            PropertyId::MinInlineSize => "min-inline-size"@,
            PropertyId::MaxBlockSize => "max-block-size"@,
            PropertyId::MaxInlineSize => "max-inline-size"@,
            PropertyId::Top => "top"@,
            PropertyId::Bottom => "bottom"@,
            PropertyId::Left => "left"@,
            PropertyId::Right => "right"@,
            PropertyId::InsetBlockStart => "inset-block-start"@,
            PropertyId::InsetBlockEnd => "inset-block-end"@,
            PropertyId::InsetInlineStart => "inset-inline-start"@,
            PropertyId::InsetInlineEnd => "inset-inline-end"@,
            PropertyId::BorderTopColor => "border-top-color"@,
            PropertyId::BorderBottomColor => "border-bottom-color"@,
            PropertyId::BorderLeftColor => "border-left-color"@,
            PropertyId::BorderRightColor => "border-right-color"@,
            PropertyId::BorderBlockStartColor => "border-block-start-color"@,
            PropertyId::BorderBlockEndColor => "border-block-end-color"@,
            PropertyId::BorderInlineStartColor => "border-inline-start-color"@,
            PropertyId::BorderInlineEndColor => "border-inline-end-color"@,
            PropertyId::BorderTopStyle => "border-top-style"@,
            PropertyId::BorderBottomStyle => "border-bottom-style"@,
            PropertyId::BorderLeftStyle => "border-left-style"@,
            PropertyId::BorderRightStyle => "border-right-style"@,
            PropertyId::BorderBlockStartStyle => "border-block-start-style"@,
            PropertyId::BorderBlockEndStyle => "border-block-end-style"@,
            PropertyId::BorderInlineStartStyle => "border-inline-start-style"@,
            PropertyId::BorderInlineEndStyle => "border-inline-end-style"@,
            PropertyId::BorderTopWidth => "border-top-width"@,
            PropertyId::BorderBottomWidth => "border-bottom-width"@,
            PropertyId::BorderLeftWidth => "border-left-width"@,
            PropertyId::BorderRightWidth => "border-right-width"@,
            PropertyId::BorderBlockStartWidth => "border-block-start-width"@,
            PropertyId::BorderBlockEndWidth => "border-block-end-width"@,
            PropertyId::BorderInlineStartWidth => "border-inline-start-width"@,
            PropertyId::BorderInlineEndWidth => "border-inline-end-width"@,
            PropertyId::BorderTopLeftRadius => "border-top-left-radius"@,
            PropertyId::BorderTopRightRadius => "border-top-right-radius"@,
            PropertyId::BorderBottomLeftRadius => "border-bottom-left-radius"@,
            PropertyId::BorderBottomRightRadius => "border-bottom-right-radius"@,
            PropertyId::BorderStartStartRadius => "border-start-start-radius"@,
            PropertyId::BorderStartEndRadius => "border-start-end-radius"@,
            PropertyId::BorderEndStartRadius => "border-end-start-radius"@,
            PropertyId::BorderEndEndRadius => "border-end-end-radius"@,
            PropertyId::BorderRadius => "border-radius"@,
            PropertyId::BorderImageSource => "border-image-source"@,
            PropertyId::BorderImageOutset => "border-image-outset"@,
            PropertyId::BorderImageRepeat => "border-image-repeat"@,
            PropertyId::BorderImageWidth => "border-image-width"@,
            PropertyId::BorderImageSlice => "border-image-slice"@,
            PropertyId::BorderImage => "border-image"@,
            PropertyId::BorderColor => "border-color"@,
            PropertyId::BorderStyle => "border-style"@,
            PropertyId::BorderWidth => "border-width"@,
            PropertyId::BorderBlockColor => "border-block-color"@,
            PropertyId::BorderBlockStyle => "border-block-style"@,
            PropertyId::BorderBlockWidth => "border-block-width"@,
            PropertyId::BorderInlineColor => "border-inline-color"@,
            PropertyId::BorderInlineStyle => "border-inline-style"@,
            PropertyId::BorderInlineWidth => "border-inline-width"@,
            PropertyId::Border => "border"@,
            PropertyId::BorderTop => "border-top"@,
            PropertyId::BorderBottom => "border-bottom"@,
            PropertyId::BorderLeft => "border-left"@,
            PropertyId::BorderRight => "border-right"@,
            PropertyId::BorderBlock => "border-block"@,
            PropertyId::BorderBlockStart => "border-block-start"@,
            PropertyId::BorderBlockEnd => "border-block-end"@,
            PropertyId::BorderInline => "border-inline"@,
            PropertyId::BorderInlineStart => "border-inline-start"@,
            PropertyId::BorderInlineEnd => "border-inline-end"@,
            PropertyId::Outline => "outline"@,
            PropertyId::OutlineColor => "outline-color"@,
            PropertyId::OutlineStyle => "outline-style"@,
            PropertyId::OutlineWidth => "outline-width"@,
            PropertyId::FlexDirection => "flex-direction"@,
            PropertyId::FlexWrap => "flex-wrap"@,
            PropertyId::FlexFlow => "flex-flow"@,
            PropertyId::FlexGrow => "flex-grow"@,
            PropertyId::FlexShrink => "flex-shrink"@,
            PropertyId::FlexBasis => "flex-basis"@,
            PropertyId::Flex => "flex"@,
            PropertyId::AlignContent => "align-content"@,
            PropertyId::JustifyContent => "justify-content"@,
            PropertyId::PlaceContent => "place-content"@,
            PropertyId::AlignSelf => "align-self"@,
            PropertyId::JustifySelf => "justify-self"@,
            PropertyId::PlaceSelf => "place-self"@,
            PropertyId::AlignItems => "align-items"@,
            PropertyId::JustifyItems => "justify-items"@,
            PropertyId::PlaceItems => "place-items"@,
            PropertyId::RowGap => "row-gap"@,
            PropertyId::ColumnGap => "column-gap"@,
            PropertyId::Gap => "gap"@,
            PropertyId::MarginTop => "margin-top"@,
            PropertyId::MarginBottom => "margin-bottom"@,
            PropertyId::MarginLeft => "margin-left"@,
            PropertyId::MarginRight => "margin-right"@,
            PropertyId::MarginBlockStart => "margin-block-start"@,
            PropertyId::MarginBlockEnd => "margin-block-end"@,
            PropertyId::MarginInlineStart => "margin-inline-start"@,
            PropertyId::MarginInlineEnd => "margin-inline-end"@,
            PropertyId::MarginBlock => "margin-block"@,
            PropertyId::MarginInline => "margin-inline"@,
            PropertyId::Margin => "margin"@,
            PropertyId::PaddingTop => "padding-top"@,
            PropertyId::PaddingBottom => "padding-bottom"@,
            PropertyId::PaddingLeft => "padding-left"@,
            PropertyId::PaddingRight => "padding-right"@,
            PropertyId::PaddingBlockStart => "padding-block-start"@,
            PropertyId::PaddingBlockEnd => "padding-block-end"@,
            PropertyId::PaddingInlineStart => "padding-inline-start"@,
            PropertyId::PaddingInlineEnd => "padding-inline-end"@,
            PropertyId::PaddingBlock => "padding-block"@,
            PropertyId::PaddingInline => "padding-inline"@,
            PropertyId::Padding => "padding"@,
            PropertyId::ScrollMarginTop => "scroll-margin-top"@,
            PropertyId::ScrollMarginBottom => "scroll-margin-bottom"@,
            PropertyId::ScrollMarginLeft => "scroll-margin-left"@,
            PropertyId::ScrollMarginRight => "scroll-margin-right"@,
            PropertyId::ScrollMarginBlockStart => "scroll-margin-block-start"@,
            PropertyId::ScrollMarginBlockEnd => "scroll-margin-block-end"@,
            PropertyId::ScrollMarginInlineStart => "scroll-margin-inline-start"@,
            PropertyId::ScrollMarginInlineEnd => "scroll-margin-inline-end"@,
            PropertyId::ScrollMarginBlock => "scroll-margin-block"@,
            PropertyId::ScrollMarginInline => "scroll-margin-inline"@,
            PropertyId::ScrollMargin => "scroll-margin"@,
            PropertyId::ScrollPaddingTop => "scroll-padding-top"@,
            PropertyId::ScrollPaddingBottom => "scroll-padding-bottom"@,
            PropertyId::ScrollPaddingLeft => "scroll-padding-left"@,
            PropertyId::ScrollPaddingRight => "scroll-padding-right"@,
            PropertyId::ScrollPaddingBlockStart => "scroll-padding-block-start"@,
            PropertyId::ScrollPaddingBlockEnd => "scroll-padding-block-end"@,
            PropertyId::ScrollPaddingInlineStart => "scroll-padding-inline-start"@,
            PropertyId::ScrollPaddingInlineEnd => "scroll-padding-inline-end"@,
            PropertyId::ScrollPaddingBlock => "scroll-padding-block"@,
            PropertyId::ScrollPaddingInline => "scroll-padding-inline"@,
            PropertyId::ScrollPadding => "scroll-padding"@,
            PropertyId::FontWeight => "font-weight"@,
            PropertyId::FontSize => "font-size"@,
            PropertyId::FontStretch => "font-stretch"@,
            PropertyId::FontFamily => "font-family"@,
            PropertyId::FontStyle => "font-style"@,
            PropertyId::FontVariantCaps => "font-variant-caps"@,
            PropertyId::LineHeight => "line-height"@,
            PropertyId::Font => "font"@,
            PropertyId::TransitionProperty => "transition-property"@,
            PropertyId::TransitionDuration => "transition-duration"@,
            PropertyId::TransitionDelay => "transition-delay"@,
            PropertyId::TransitionTimingFunction => "transition-timing-function"@,
            PropertyId::Transition => "transition"@,
            PropertyId::AnimationName => "animation-name"@,
            PropertyId::AnimationDuration => "animation-duration"@,
            PropertyId::AnimationTimingFunction => "animation-timing-function"@,
            PropertyId::AnimationIterationCount => "animation-iteration-count"@,
            PropertyId::AnimationDirection => "animation-direction"@,
            PropertyId::AnimationPlayState => "animation-play-state"@,
            PropertyId::AnimationDelay => "animation-delay"@,
            PropertyId::AnimationFillMode => "animation-fill-mode"@,
            PropertyId::Animation => "animation"@,
            PropertyId::Transform => "transform"@,
        }
    }

    /// The canonical name of a property: the one that serialization writes.
    pub fn name(self) -> (s: &'static str)
        ensures
            s@ == self.name_text(),
    {
        match self {
            PropertyId::BackgroundColor => "background-color",
            PropertyId::BackgroundImage => "background-image",
            PropertyId::BackgroundPositionX => "background-position-x",
            PropertyId::BackgroundPositionY => "background-position-y",
            PropertyId::BackgroundPosition => "background-position",
            PropertyId::BackgroundSize => "background-size",
            PropertyId::BackgroundRepeat => "background-repeat",
            PropertyId::BackgroundAttachment => "background-attachment",
            PropertyId::BackgroundClip => "background-clip",
            PropertyId::BackgroundOrigin => "background-origin",
            PropertyId::Background => "background",
            PropertyId::BoxShadow => "box-shadow",
            PropertyId::Opacity => "opacity",
            PropertyId::Color => "color",
            PropertyId::Width => "width",
            PropertyId::Height => "height",
            PropertyId::MinWidth => "min-width",
            PropertyId::MinHeight => "min-height",
            PropertyId::MaxWidth => "max-width",
            PropertyId::MaxHeight => "max-height",
            PropertyId::BlockSize => "block-size",
            PropertyId::InlineSize => "inline-size",
            PropertyId::MinBlockSize => "min-block-size",
            PropertyId::MinInlineSize => "min-inline-size",
            PropertyId::MaxBlockSize => "max-block-size",
            PropertyId::MaxInlineSize => "max-inline-size",
            PropertyId::Top => "top",
            PropertyId::Bottom => "bottom",
            PropertyId::Left => "left",
            PropertyId::Right => "right",
            PropertyId::InsetBlockStart => "inset-block-start",
            PropertyId::InsetBlockEnd => "inset-block-end",
            PropertyId::InsetInlineStart => "inset-inline-start",
            PropertyId::InsetInlineEnd => "inset-inline-end",
            PropertyId::BorderTopColor => "border-top-color",
            PropertyId::BorderBottomColor => "border-bottom-color",
            PropertyId::BorderLeftColor => "border-left-color",
            PropertyId::BorderRightColor => "border-right-color",
            PropertyId::BorderBlockStartColor => "border-block-start-color",
            PropertyId::BorderBlockEndColor => "border-block-end-color",
            PropertyId::BorderInlineStartColor => "border-inline-start-color",
            PropertyId::BorderInlineEndColor => "border-inline-end-color",
            PropertyId::BorderTopStyle => "border-top-style",
            PropertyId::BorderBottomStyle => "border-bottom-style",
            PropertyId::BorderLeftStyle => "border-left-style",
            PropertyId::BorderRightStyle => "border-right-style",
            PropertyId::BorderBlockStartStyle => "border-block-start-style",
            PropertyId::BorderBlockEndStyle => "border-block-end-style",
            PropertyId::BorderInlineStartStyle => "border-inline-start-style",
            PropertyId::BorderInlineEndStyle => "border-inline-end-style",
            PropertyId::BorderTopWidth => "border-top-width",
            PropertyId::BorderBottomWidth => "border-bottom-width",
            PropertyId::BorderLeftWidth => "border-left-width",
            PropertyId::BorderRightWidth => "border-right-width",
            PropertyId::BorderBlockStartWidth => "border-block-start-width",
            PropertyId::BorderBlockEndWidth => "border-block-end-width",
            PropertyId::BorderInlineStartWidth => "border-inline-start-width",
            PropertyId::BorderInlineEndWidth => "border-inline-end-width",
            PropertyId::BorderTopLeftRadius => "border-top-left-radius",
            PropertyId::BorderTopRightRadius => "border-top-right-radius",
            PropertyId::BorderBottomLeftRadius => "border-bottom-left-radius",
            PropertyId::BorderBottomRightRadius => "border-bottom-right-radius",
            PropertyId::BorderStartStartRadius => "border-start-start-radius",
            PropertyId::BorderStartEndRadius => "border-start-end-radius",
            PropertyId::BorderEndStartRadius => "border-end-start-radius",
            PropertyId::BorderEndEndRadius => "border-end-end-radius",
            PropertyId::BorderRadius => "border-radius",
            PropertyId::BorderImageSource => "border-image-source",
            PropertyId::BorderImageOutset => "border-image-outset",
            PropertyId::BorderImageRepeat => "border-image-repeat",
            PropertyId::BorderImageWidth => "border-image-width",
            PropertyId::BorderImageSlice => "border-image-slice",
            PropertyId::BorderImage => "border-image",
            PropertyId::BorderColor => "border-color",
            PropertyId::BorderStyle => "border-style",
            PropertyId::BorderWidth => "border-width",
            PropertyId::BorderBlockColor => "border-block-color",
            PropertyId::BorderBlockStyle => "border-block-style",
            PropertyId::BorderBlockWidth => "border-block-width",
            PropertyId::BorderInlineColor => "border-inline-color",
            PropertyId::BorderInlineStyle => "border-inline-style",
            PropertyId::BorderInlineWidth => "border-inline-width",
            PropertyId::Border => "border",
            PropertyId::BorderTop => "border-top",
            PropertyId::BorderBottom => "border-bottom",
            PropertyId::BorderLeft => "border-left",
            PropertyId::BorderRight => "border-right",
            PropertyId::BorderBlock => "border-block",
            PropertyId::BorderBlockStart => "border-block-start",
            PropertyId::BorderBlockEnd => "border-block-end",
            PropertyId::BorderInline => "border-inline",
            PropertyId::BorderInlineStart => "border-inline-start",
            PropertyId::BorderInlineEnd => "border-inline-end",
            PropertyId::Outline => "outline",
            PropertyId::OutlineColor => "outline-color",
            PropertyId::OutlineStyle => "outline-style",
            PropertyId::OutlineWidth => "outline-width",
            PropertyId::FlexDirection => "flex-direction",
            PropertyId::FlexWrap => "flex-wrap",
            PropertyId::FlexFlow => "flex-flow",
            PropertyId::FlexGrow => "flex-grow",
            PropertyId::FlexShrink => "flex-shrink",
            PropertyId::FlexBasis => "flex-basis",
            PropertyId::Flex => "flex",
            PropertyId::AlignContent => "align-content",
            PropertyId::JustifyContent => "justify-content",
            PropertyId::PlaceContent => "place-content",
            PropertyId::AlignSelf => "align-self",
            PropertyId::JustifySelf => "justify-self",
            PropertyId::PlaceSelf => "place-self",
            PropertyId::AlignItems => "align-items",
            PropertyId::JustifyItems => "justify-items",
            PropertyId::PlaceItems => "place-items",
            PropertyId::RowGap => "row-gap",
            PropertyId::ColumnGap => "column-gap",
            PropertyId::Gap => "gap",
            PropertyId::MarginTop => "margin-top",
            PropertyId::MarginBottom => "margin-bottom",
            PropertyId::MarginLeft => "margin-left",
            PropertyId::MarginRight => "margin-right",
            PropertyId::MarginBlockStart => "margin-block-start",
            PropertyId::MarginBlockEnd => "margin-block-end",
            PropertyId::MarginInlineStart => "margin-inline-start",
            PropertyId::MarginInlineEnd => "margin-inline-end",
            PropertyId::MarginBlock => "margin-block",
            PropertyId::MarginInline => "margin-inline",
            PropertyId::Margin => "margin",
            PropertyId::PaddingTop => "padding-top",
            PropertyId::PaddingBottom => "padding-bottom",
            PropertyId::PaddingLeft => "padding-left",
            PropertyId::PaddingRight => "padding-right",
            PropertyId::PaddingBlockStart => "padding-block-start",
            PropertyId::PaddingBlockEnd => "padding-block-end",
            PropertyId::PaddingInlineStart => "padding-inline-start",
            PropertyId::PaddingInlineEnd => "padding-inline-end",
            PropertyId::PaddingBlock => "padding-block",
            PropertyId::PaddingInline => "padding-inline",
            PropertyId::Padding => "padding",
            PropertyId::ScrollMarginTop => "scroll-margin-top",
            PropertyId::ScrollMarginBottom => "scroll-margin-bottom",
            PropertyId::ScrollMarginLeft => "scroll-margin-left",
            PropertyId::ScrollMarginRight => "scroll-margin-right",
            PropertyId::ScrollMarginBlockStart => "scroll-margin-block-start",
            PropertyId::ScrollMarginBlockEnd => "scroll-margin-block-end",
            PropertyId::ScrollMarginInlineStart => "scroll-margin-inline-start",
            PropertyId::ScrollMarginInlineEnd => "scroll-margin-inline-end",
            PropertyId::ScrollMarginBlock => "scroll-margin-block",
            PropertyId::ScrollMarginInline => "scroll-margin-inline",
            PropertyId::ScrollMargin => "scroll-margin",
            PropertyId::ScrollPaddingTop => "scroll-padding-top",
            PropertyId::ScrollPaddingBottom => "scroll-padding-bottom",
            PropertyId::ScrollPaddingLeft => "scroll-padding-left",
            PropertyId::ScrollPaddingRight => "scroll-padding-right",
            PropertyId::ScrollPaddingBlockStart => "scroll-padding-block-start",
            PropertyId::ScrollPaddingBlockEnd => "scroll-padding-block-end",
            PropertyId::ScrollPaddingInlineStart => "scroll-padding-inline-start",
            PropertyId::ScrollPaddingInlineEnd => "scroll-padding-inline-end",
            PropertyId::ScrollPaddingBlock => "scroll-padding-block",
            PropertyId::ScrollPaddingInline => "scroll-padding-inline",
            PropertyId::ScrollPadding => "scroll-padding",
            PropertyId::FontWeight => "font-weight",
            PropertyId::FontSize => "font-size",
            PropertyId::FontStretch => "font-stretch",
            PropertyId::FontFamily => "font-family",
            PropertyId::FontStyle => "font-style",
            PropertyId::FontVariantCaps => "font-variant-caps",
            PropertyId::LineHeight => "line-height",
            PropertyId::Font => "font",
            PropertyId::TransitionProperty => "transition-property",
            PropertyId::TransitionDuration => "transition-duration",
            PropertyId::TransitionDelay => "transition-delay",
            PropertyId::TransitionTimingFunction => "transition-timing-function",
            PropertyId::Transition => "transition",
            PropertyId::AnimationName => "animation-name",
            PropertyId::AnimationDuration => "animation-duration",
            PropertyId::AnimationTimingFunction => "animation-timing-function",
            PropertyId::AnimationIterationCount => "animation-iteration-count",
            PropertyId::AnimationDirection => "animation-direction",
            PropertyId::AnimationPlayState => "animation-play-state",
            PropertyId::AnimationDelay => "animation-delay",
            PropertyId::AnimationFillMode => "animation-fill-mode",
            PropertyId::Animation => "animation",
            PropertyId::Transform => "transform",
        }
    }

    /// The grammar that the values of a property follow.
    pub open spec fn spec_value_kind(self) -> ValueKind {
        match self {
            PropertyId::BackgroundColor
            | PropertyId::Color
            | PropertyId::BorderTopColor
            | PropertyId::BorderBottomColor
            | PropertyId::BorderLeftColor
            | PropertyId::BorderRightColor
            | PropertyId::BorderBlockStartColor
            | PropertyId::BorderBlockEndColor
            | PropertyId::BorderInlineStartColor
            | PropertyId::BorderInlineEndColor
            | PropertyId::BorderBlockColor
            | PropertyId::BorderInlineColor
            | PropertyId::OutlineColor => ValueKind::CssColor,
            PropertyId::BackgroundImage
            | PropertyId::BorderImageSource => ValueKind::Image,
            PropertyId::BackgroundPositionX => ValueKind::HorizontalPosition,
            PropertyId::BackgroundPositionY => ValueKind::VerticalPosition,
            PropertyId::BackgroundPosition => ValueKind::BackgroundPosition,
            PropertyId::BackgroundSize => ValueKind::BackgroundSize,
            PropertyId::BackgroundRepeat => ValueKind::BackgroundRepeat,
            PropertyId::BackgroundAttachment => ValueKind::BackgroundAttachment,
            PropertyId::BackgroundClip
            | PropertyId::BackgroundOrigin => ValueKind::BackgroundBox,
            PropertyId::Background => ValueKind::Background,
            PropertyId::BoxShadow => ValueKind::BoxShadow,
            PropertyId::Opacity => ValueKind::AlphaValue,
            PropertyId::Width
            | PropertyId::Height
            | PropertyId::BlockSize
            | PropertyId::InlineSize => ValueKind::Size,
            PropertyId::MinWidth
            | PropertyId::MinHeight
            | PropertyId::MaxWidth
            | PropertyId::MaxHeight
            | PropertyId::MinBlockSize
            | PropertyId::MinInlineSize
            | PropertyId::MaxBlockSize
            | PropertyId::MaxInlineSize => ValueKind::MinMaxSize,
            PropertyId::Top
            | PropertyId::Bottom
            | PropertyId::Left
            | PropertyId::Right
            | PropertyId::InsetBlockStart
            | PropertyId::InsetBlockEnd
            | PropertyId::InsetInlineStart
            | PropertyId::InsetInlineEnd
            | PropertyId::FlexBasis
            | PropertyId::MarginTop
            | PropertyId::MarginBottom
            | PropertyId::MarginLeft
            | PropertyId::MarginRight
            | PropertyId::MarginBlockStart
            | PropertyId::MarginBlockEnd
            | PropertyId::MarginInlineStart
            | PropertyId::MarginInlineEnd
            | PropertyId::PaddingTop
            | PropertyId::PaddingBottom
            | PropertyId::PaddingLeft
            | PropertyId::PaddingRight
            | PropertyId::PaddingBlockStart
            | PropertyId::PaddingBlockEnd
            | PropertyId::PaddingInlineStart
            | PropertyId::PaddingInlineEnd
            | PropertyId::ScrollMarginTop
            | PropertyId::ScrollMarginBottom
            | PropertyId::ScrollMarginLeft
            | PropertyId::ScrollMarginRight
            | PropertyId::ScrollMarginBlockStart
            | PropertyId::ScrollMarginBlockEnd
            | PropertyId::ScrollMarginInlineStart
            | PropertyId::ScrollMarginInlineEnd
            | PropertyId::ScrollPaddingTop
            | PropertyId::ScrollPaddingBottom
            | PropertyId::ScrollPaddingLeft
            | PropertyId::ScrollPaddingRight
            | PropertyId::ScrollPaddingBlockStart
            | PropertyId::ScrollPaddingBlockEnd
            | PropertyId::ScrollPaddingInlineStart
            | PropertyId::ScrollPaddingInlineEnd => ValueKind::LengthPercentageOrAuto,
            PropertyId::BorderTopStyle
            | PropertyId::BorderBottomStyle
            | PropertyId::BorderLeftStyle
            | PropertyId::BorderRightStyle
            | PropertyId::BorderBlockStartStyle
            | PropertyId::BorderBlockEndStyle
            | PropertyId::BorderInlineStartStyle
            | PropertyId::BorderInlineEndStyle
            | PropertyId::BorderBlockStyle
            | PropertyId::BorderInlineStyle => ValueKind::BorderStyle,
            PropertyId::BorderTopWidth
            | PropertyId::BorderBottomWidth
            | PropertyId::BorderLeftWidth
            | PropertyId::BorderRightWidth
            | PropertyId::BorderBlockStartWidth
            | PropertyId::BorderBlockEndWidth
            | PropertyId::BorderInlineStartWidth
            | PropertyId::BorderInlineEndWidth
            | PropertyId::BorderBlockWidth
            | PropertyId::BorderInlineWidth
            | PropertyId::OutlineWidth => ValueKind::BorderSideWidth,
            PropertyId::BorderTopLeftRadius
            | PropertyId::BorderTopRightRadius
            | PropertyId::BorderBottomLeftRadius
            | PropertyId::BorderBottomRightRadius
            | PropertyId::BorderStartStartRadius
            | PropertyId::BorderStartEndRadius
            | PropertyId::BorderEndStartRadius
            | PropertyId::BorderEndEndRadius => ValueKind::LengthPercentageSize2D,
            PropertyId::BorderRadius => ValueKind::BorderRadius,
            PropertyId::BorderImageOutset => ValueKind::LengthOrNumberRect,
            PropertyId::BorderImageRepeat => ValueKind::BorderImageRepeat,
            PropertyId::BorderImageWidth => ValueKind::BorderImageSideWidthRect,
            PropertyId::BorderImageSlice => ValueKind::BorderImageSlice,
            PropertyId::BorderImage => ValueKind::BorderImage,
            PropertyId::BorderColor => ValueKind::CssColorRect,
            PropertyId::BorderStyle => ValueKind::BorderStyleRect,
            PropertyId::BorderWidth => ValueKind::BorderSideWidthRect,
            PropertyId::Border
            | PropertyId::BorderTop
            | PropertyId::BorderBottom
            | PropertyId::BorderLeft
            | PropertyId::BorderRight
            | PropertyId::BorderBlock
            | PropertyId::BorderBlockStart
            | PropertyId::BorderBlockEnd
            | PropertyId::BorderInline
            | PropertyId::BorderInlineStart
            | PropertyId::BorderInlineEnd => ValueKind::Border,
            PropertyId::Outline => ValueKind::Outline,
            PropertyId::OutlineStyle => ValueKind::OutlineStyle,
            PropertyId::FlexDirection => ValueKind::FlexDirection,
            PropertyId::FlexWrap => ValueKind::FlexWrap,
            PropertyId::FlexFlow => ValueKind::FlexFlow,
            PropertyId::FlexGrow
            | PropertyId::FlexShrink => ValueKind::Number,
            PropertyId::Flex => ValueKind::Flex,
            PropertyId::AlignContent => ValueKind::AlignContent,
            PropertyId::JustifyContent => ValueKind::JustifyContent,
            PropertyId::PlaceContent => ValueKind::PlaceContent,
            PropertyId::AlignSelf => ValueKind::AlignSelf,
            PropertyId::JustifySelf => ValueKind::JustifySelf,
            PropertyId::PlaceSelf => ValueKind::PlaceSelf,
            PropertyId::AlignItems => ValueKind::AlignItems,
            PropertyId::JustifyItems => ValueKind::JustifyItems,
            PropertyId::PlaceItems => ValueKind::PlaceItems,
            PropertyId::RowGap
            | PropertyId::ColumnGap => ValueKind::GapValue,
            PropertyId::Gap => ValueKind::Gap,
            PropertyId::MarginBlock
            | PropertyId::MarginInline
            | PropertyId::PaddingBlock
            | PropertyId::PaddingInline
            | PropertyId::ScrollMarginBlock
            | PropertyId::ScrollMarginInline
            | PropertyId::ScrollPaddingBlock
            | PropertyId::ScrollPaddingInline => ValueKind::LengthPercentageOrAutoSize2D,
            PropertyId::Margin
            | PropertyId::Padding
            | PropertyId::ScrollMargin
            | PropertyId::ScrollPadding => ValueKind::LengthPercentageOrAutoRect,
            PropertyId::FontWeight => ValueKind::FontWeight,
            PropertyId::FontSize => ValueKind::FontSize,
            PropertyId::FontStretch => ValueKind::FontStretch,
            PropertyId::FontFamily => ValueKind::FontFamily,
            PropertyId::FontStyle => ValueKind::FontStyle,
            PropertyId::FontVariantCaps => ValueKind::FontVariantCaps,
            PropertyId::LineHeight => ValueKind::LineHeight,
            PropertyId::Font => ValueKind::Font,
            PropertyId::TransitionProperty => ValueKind::CustomIdent,
            PropertyId::TransitionDuration
            | PropertyId::TransitionDelay
            | PropertyId::AnimationDuration
            | PropertyId::AnimationDelay => ValueKind::Time,
            PropertyId::TransitionTimingFunction
            | PropertyId::AnimationTimingFunction => ValueKind::EasingFunction,
            PropertyId::Transition => ValueKind::Transition,
            PropertyId::AnimationName => ValueKind::AnimationName,
            PropertyId::AnimationIterationCount => ValueKind::AnimationIterationCount,
            PropertyId::AnimationDirection => ValueKind::AnimationDirection,
            PropertyId::AnimationPlayState => ValueKind::AnimationPlayState,
            PropertyId::AnimationFillMode => ValueKind::AnimationFillMode,
            PropertyId::Animation => ValueKind::Animation,
            PropertyId::Transform => ValueKind::TransformList,
        }
    }

    /// The grammar that the values of a property follow.
    #[verifier::when_used_as_spec(spec_value_kind)]
    pub fn value_kind(self) -> (k: ValueKind)
        ensures
            k == self.spec_value_kind(),
    {
        match self {
            PropertyId::BackgroundColor
            | PropertyId::Color
            | PropertyId::BorderTopColor
            | PropertyId::BorderBottomColor
            | PropertyId::BorderLeftColor
            | PropertyId::BorderRightColor
            | PropertyId::BorderBlockStartColor
            | PropertyId::BorderBlockEndColor
            | PropertyId::BorderInlineStartColor
            | PropertyId::BorderInlineEndColor
            | PropertyId::BorderBlockColor
            | PropertyId::BorderInlineColor
            | PropertyId::OutlineColor => ValueKind::CssColor,
            PropertyId::BackgroundImage
            | PropertyId::BorderImageSource => ValueKind::Image,
            PropertyId::BackgroundPositionX => ValueKind::HorizontalPosition,
            PropertyId::BackgroundPositionY => ValueKind::VerticalPosition,
            PropertyId::BackgroundPosition => ValueKind::BackgroundPosition,
            PropertyId::BackgroundSize => ValueKind::BackgroundSize,
            PropertyId::BackgroundRepeat => ValueKind::BackgroundRepeat,
            PropertyId::BackgroundAttachment => ValueKind::BackgroundAttachment,
            PropertyId::BackgroundClip
            | PropertyId::BackgroundOrigin => ValueKind::BackgroundBox,
            PropertyId::Background => ValueKind::Background,
            PropertyId::BoxShadow => ValueKind::BoxShadow,
            PropertyId::Opacity => ValueKind::AlphaValue,
            PropertyId::Width
            | PropertyId::Height
            | PropertyId::BlockSize
            | PropertyId::InlineSize => ValueKind::Size,
            PropertyId::MinWidth
            | PropertyId::MinHeight
            | PropertyId::MaxWidth
            | PropertyId::MaxHeight
            | PropertyId::MinBlockSize
            | PropertyId::MinInlineSize
            | PropertyId::MaxBlockSize
            | PropertyId::MaxInlineSize => ValueKind::MinMaxSize,
            PropertyId::Top
            | PropertyId::Bottom
            | PropertyId::Left
            | PropertyId::Right
            | PropertyId::InsetBlockStart
            | PropertyId::InsetBlockEnd
            | PropertyId::InsetInlineStart
            | PropertyId::InsetInlineEnd
            | PropertyId::FlexBasis
            | PropertyId::MarginTop
            | PropertyId::MarginBottom
            | PropertyId::MarginLeft
            | PropertyId::MarginRight
            | PropertyId::MarginBlockStart
            | PropertyId::MarginBlockEnd
            | PropertyId::MarginInlineStart
            | PropertyId::MarginInlineEnd
            | PropertyId::PaddingTop
            | PropertyId::PaddingBottom
            | PropertyId::PaddingLeft
            | PropertyId::PaddingRight
            | PropertyId::PaddingBlockStart
            | PropertyId::PaddingBlockEnd
            | PropertyId::PaddingInlineStart
            | PropertyId::PaddingInlineEnd
            | PropertyId::ScrollMarginTop
            | PropertyId::ScrollMarginBottom
            | PropertyId::ScrollMarginLeft
            | PropertyId::ScrollMarginRight
            | PropertyId::ScrollMarginBlockStart
            | PropertyId::ScrollMarginBlockEnd
            | PropertyId::ScrollMarginInlineStart
            | PropertyId::ScrollMarginInlineEnd
            | PropertyId::ScrollPaddingTop
            | PropertyId::ScrollPaddingBottom
            | PropertyId::ScrollPaddingLeft
            | PropertyId::ScrollPaddingRight
            | PropertyId::ScrollPaddingBlockStart
            | PropertyId::ScrollPaddingBlockEnd
            | PropertyId::ScrollPaddingInlineStart
            | PropertyId::ScrollPaddingInlineEnd => ValueKind::LengthPercentageOrAuto,
            PropertyId::BorderTopStyle
            | PropertyId::BorderBottomStyle
            | PropertyId::BorderLeftStyle
            | PropertyId::BorderRightStyle
            | PropertyId::BorderBlockStartStyle
            | PropertyId::BorderBlockEndStyle
            | PropertyId::BorderInlineStartStyle
            | PropertyId::BorderInlineEndStyle
            | PropertyId::BorderBlockStyle
            | PropertyId::BorderInlineStyle => ValueKind::BorderStyle,
            PropertyId::BorderTopWidth
            | PropertyId::BorderBottomWidth
            | PropertyId::BorderLeftWidth
            | PropertyId::BorderRightWidth
            | PropertyId::BorderBlockStartWidth
            | PropertyId::BorderBlockEndWidth
            | PropertyId::BorderInlineStartWidth
            | PropertyId::BorderInlineEndWidth
            | PropertyId::BorderBlockWidth
            | PropertyId::BorderInlineWidth
            | PropertyId::OutlineWidth => ValueKind::BorderSideWidth,
            PropertyId::BorderTopLeftRadius
            | PropertyId::BorderTopRightRadius
            | PropertyId::BorderBottomLeftRadius
            | PropertyId::BorderBottomRightRadius
            | PropertyId::BorderStartStartRadius
            | PropertyId::BorderStartEndRadius
            | PropertyId::BorderEndStartRadius
            | PropertyId::BorderEndEndRadius => ValueKind::LengthPercentageSize2D,
            PropertyId::BorderRadius => ValueKind::BorderRadius,
            PropertyId::BorderImageOutset => ValueKind::LengthOrNumberRect,
            PropertyId::BorderImageRepeat => ValueKind::BorderImageRepeat,
            PropertyId::BorderImageWidth => ValueKind::BorderImageSideWidthRect,
            PropertyId::BorderImageSlice => ValueKind::BorderImageSlice,
            PropertyId::BorderImage => ValueKind::BorderImage,
            PropertyId::BorderColor => ValueKind::CssColorRect,
            PropertyId::BorderStyle => ValueKind::BorderStyleRect,
            PropertyId::BorderWidth => ValueKind::BorderSideWidthRect,
            PropertyId::Border
            | PropertyId::BorderTop
            | PropertyId::BorderBottom
            | PropertyId::BorderLeft
            | PropertyId::BorderRight
            | PropertyId::BorderBlock
            | PropertyId::BorderBlockStart
            | PropertyId::BorderBlockEnd
            | PropertyId::BorderInline
            | PropertyId::BorderInlineStart
            | PropertyId::BorderInlineEnd => ValueKind::Border,
            PropertyId::Outline => ValueKind::Outline,
            PropertyId::OutlineStyle => ValueKind::OutlineStyle,
            PropertyId::FlexDirection => ValueKind::FlexDirection,
            PropertyId::FlexWrap => ValueKind::FlexWrap,
            PropertyId::FlexFlow => ValueKind::FlexFlow,
            PropertyId::FlexGrow
            | PropertyId::FlexShrink => ValueKind::Number,
            PropertyId::Flex => ValueKind::Flex,
            PropertyId::AlignContent => ValueKind::AlignContent,
            PropertyId::JustifyContent => ValueKind::JustifyContent,
            PropertyId::PlaceContent => ValueKind::PlaceContent,
            PropertyId::AlignSelf => ValueKind::AlignSelf,
            PropertyId::JustifySelf => ValueKind::JustifySelf,
            PropertyId::PlaceSelf => ValueKind::PlaceSelf,
            PropertyId::AlignItems => ValueKind::AlignItems,
            PropertyId::JustifyItems => ValueKind::JustifyItems,
            PropertyId::PlaceItems => ValueKind::PlaceItems,
            PropertyId::RowGap
            | PropertyId::ColumnGap => ValueKind::GapValue,
            PropertyId::Gap => ValueKind::Gap,
            PropertyId::MarginBlock
            | PropertyId::MarginInline
            | PropertyId::PaddingBlock
            | PropertyId::PaddingInline
            | PropertyId::ScrollMarginBlock
            | PropertyId::ScrollMarginInline
            | PropertyId::ScrollPaddingBlock
            | PropertyId::ScrollPaddingInline => ValueKind::LengthPercentageOrAutoSize2D,
            PropertyId::Margin
            | PropertyId::Padding
            | PropertyId::ScrollMargin
            | PropertyId::ScrollPadding => ValueKind::LengthPercentageOrAutoRect,
            PropertyId::FontWeight => ValueKind::FontWeight,
            PropertyId::FontSize => ValueKind::FontSize,
            PropertyId::FontStretch => ValueKind::FontStretch,
            PropertyId::FontFamily => ValueKind::FontFamily,
            PropertyId::FontStyle => ValueKind::FontStyle,
            PropertyId::FontVariantCaps => ValueKind::FontVariantCaps,
            PropertyId::LineHeight => ValueKind::LineHeight,
            PropertyId::Font => ValueKind::Font,
            PropertyId::TransitionProperty => ValueKind::CustomIdent,
            PropertyId::TransitionDuration
            | PropertyId::TransitionDelay
            | PropertyId::AnimationDuration
            | PropertyId::AnimationDelay => ValueKind::Time,
            PropertyId::TransitionTimingFunction
            | PropertyId::AnimationTimingFunction => ValueKind::EasingFunction,
            PropertyId::Transition => ValueKind::Transition,
            PropertyId::AnimationName => ValueKind::AnimationName,
            PropertyId::AnimationIterationCount => ValueKind::AnimationIterationCount,
            PropertyId::AnimationDirection => ValueKind::AnimationDirection,
            PropertyId::AnimationPlayState => ValueKind::AnimationPlayState,
            PropertyId::AnimationFillMode => ValueKind::AnimationFillMode,
            PropertyId::Animation => ValueKind::Animation,
            PropertyId::Transform => ValueKind::TransformList,
        }
    }

    /// Whether a property carries one value or a list, and how the list is stored.
    pub open spec fn spec_multiplicity(self) -> Multiplicity {
        match self {
            PropertyId::FontFamily => Multiplicity::GrowableList,
            PropertyId::BackgroundImage
            | PropertyId::BackgroundPositionX
            | PropertyId::BackgroundPositionY
            | PropertyId::BackgroundPosition
            | PropertyId::BackgroundSize
            | PropertyId::BackgroundRepeat
            | PropertyId::BackgroundAttachment
            | PropertyId::BackgroundClip
            | PropertyId::BackgroundOrigin
            | PropertyId::Background
            | PropertyId::BoxShadow
            | PropertyId::TransitionProperty
            | PropertyId::TransitionDuration
            | PropertyId::TransitionDelay
            | PropertyId::TransitionTimingFunction
            | PropertyId::Transition
            | PropertyId::AnimationName
            | PropertyId::AnimationDuration
            | PropertyId::AnimationTimingFunction
            | PropertyId::AnimationIterationCount
            | PropertyId::AnimationDirection
            | PropertyId::AnimationPlayState
            | PropertyId::AnimationDelay
            | PropertyId::AnimationFillMode
            | PropertyId::Animation => Multiplicity::CompactList,
            _ => Multiplicity::Single,
        }
    }

    /// Whether a property carries one value or a list, and how the list is stored.
    #[verifier::when_used_as_spec(spec_multiplicity)]
    pub fn multiplicity(self) -> (m: Multiplicity)
        ensures
            m == self.spec_multiplicity(),
    {
        match self {
            PropertyId::FontFamily => Multiplicity::GrowableList,
            PropertyId::BackgroundImage
            | PropertyId::BackgroundPositionX
            | PropertyId::BackgroundPositionY
            | PropertyId::BackgroundPosition
            | PropertyId::BackgroundSize
            | PropertyId::BackgroundRepeat
            | PropertyId::BackgroundAttachment
            | PropertyId::BackgroundClip
            | PropertyId::BackgroundOrigin
            | PropertyId::Background
            | PropertyId::BoxShadow
            | PropertyId::TransitionProperty
            | PropertyId::TransitionDuration
            | PropertyId::TransitionDelay
            | PropertyId::TransitionTimingFunction
            | PropertyId::Transition
            | PropertyId::AnimationName
            | PropertyId::AnimationDuration
            | PropertyId::AnimationTimingFunction
            | PropertyId::AnimationIterationCount
            | PropertyId::AnimationDirection
            | PropertyId::AnimationPlayState
            | PropertyId::AnimationDelay
            | PropertyId::AnimationFillMode
            | PropertyId::Animation => Multiplicity::CompactList,
            _ => Multiplicity::Single,
        }
    }
}

} // verus!
