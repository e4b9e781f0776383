//! Finding a property by its name.
//!
//! Names are matched whole and without regard to ASCII case. A few properties also
//! answer to a legacy spelling.

use crate::ident::{PropertyId, PROPERTY_COUNT};
use vstd::prelude::*;

verus! {

/// A character with an ASCII capital turned into its small letter.
pub open spec fn ascii_lower_char(c: char) -> char {
    if 'A' <= c && c <= 'Z' {
        ((c as u8) + 32) as char
    } else {
        c
    }
}

/// A text with each ASCII capital turned into its small letter.
pub open spec fn ascii_lower(text: Seq<char>) -> Seq<char> {
    text.map_values(|c: char| ascii_lower_char(c))
}

/// The property that a legacy spelling stands for, given in small letters.
pub open spec fn legacy_name(text: Seq<char>) -> Option<PropertyId> {
    if text == "grid-row-gap"@ {
        Some(PropertyId::RowGap)
    } else if text == "grid-column-gap"@ {
        Some(PropertyId::ColumnGap)
    } else if text == "grid-gap"@ {
        Some(PropertyId::Gap)
    } else {
        None
    }
}

/// Whether a property answers to a name given in small letters.
pub open spec fn answers_to(id: PropertyId, text: Seq<char>) -> bool {
    id.name_text() == text || legacy_name(text) == Some(id)
}

/// The property that a name stands for: the one whose canonical name or legacy
/// spelling is the name in small letters, if there is one.
pub open spec fn property_named(name: Seq<char>) -> Option<PropertyId> {
    let text = ascii_lower(name);
    if exists|id: PropertyId| id.name_text() == text {
        Some(choose|id: PropertyId| id.name_text() == text)
    } else {
        legacy_name(text)
    }
}

/// `str::eq_ignore_ascii_case`: two texts match where they are equal once their
/// ASCII capitals are turned into small letters.
#[verifier::external_body]
fn eq_ignore_ascii_case(a: &str, b: &str) -> (same: bool)
    ensures
        same == (ascii_lower(a@) == ascii_lower(b@)),
{
    a.eq_ignore_ascii_case(b)
}

/// Turning capitals into small letters twice is the same as once.
pub proof fn lemma_ascii_lower_idempotent(text: Seq<char>)
    ensures
        ascii_lower(ascii_lower(text)) == ascii_lower(text),
{
    assert(ascii_lower(ascii_lower(text)) =~= ascii_lower(text));
}

/// What the proofs below need of the names, read off the table name by name.
proof fn lemma_table(a: PropertyId, b: PropertyId, text: Seq<char>)
    ensures
        ascii_lower(a.name_text()) == a.name_text(),
        a != b ==> a.name_text() != b.name_text(),
        legacy_name(text) is Some ==> a.name_text() != text,
        a.name_text().len() > 0 && a.name_text()[0] != '-',
{
    reveal_strlit("background-color");
    assert(ascii_lower("background-color"@) =~= "background-color"@);
    reveal_strlit("background-image");
    assert(ascii_lower("background-image"@) =~= "background-image"@);
    reveal_strlit("background-position-x");
    assert(ascii_lower("background-position-x"@) =~= "background-position-x"@);
    reveal_strlit("background-position-y");
    assert(ascii_lower("background-position-y"@) =~= "background-position-y"@);
    reveal_strlit("background-position");
    assert(ascii_lower("background-position"@) =~= "background-position"@);
    reveal_strlit("background-size");
    assert(ascii_lower("background-size"@) =~= "background-size"@);
    reveal_strlit("background-repeat");
    assert(ascii_lower("background-repeat"@) =~= "background-repeat"@);
    reveal_strlit("background-attachment");
    assert(ascii_lower("background-attachment"@) =~= "background-attachment"@);
    reveal_strlit("background-clip");
    assert(ascii_lower("background-clip"@) =~= "background-clip"@);
    reveal_strlit("background-origin");
    assert(ascii_lower("background-origin"@) =~= "background-origin"@);
    reveal_strlit("background");
    assert(ascii_lower("background"@) =~= "background"@);
    reveal_strlit("box-shadow");
    assert(ascii_lower("box-shadow"@) =~= "box-shadow"@);
    reveal_strlit("opacity");
    assert(ascii_lower("opacity"@) =~= "opacity"@);
    reveal_strlit("color");
    assert(ascii_lower("color"@) =~= "color"@);
    reveal_strlit("width");
    assert(ascii_lower("width"@) =~= "width"@);
    reveal_strlit("height");
    assert(ascii_lower("height"@) =~= "height"@);
    reveal_strlit("min-width");
    assert(ascii_lower("min-width"@) =~= "min-width"@);
    reveal_strlit("min-height");
    assert(ascii_lower("min-height"@) =~= "min-height"@);
    reveal_strlit("max-width");
    assert(ascii_lower("max-width"@) =~= "max-width"@);
    reveal_strlit("max-height");
    assert(ascii_lower("max-height"@) =~= "max-height"@);
    reveal_strlit("block-size");
    assert(ascii_lower("block-size"@) =~= "block-size"@);
    reveal_strlit("inline-size");
    assert(ascii_lower("inline-size"@) =~= "inline-size"@);
    reveal_strlit("min-block-size");
    assert(ascii_lower("min-block-size"@) =~= "min-block-size"@);
    reveal_strlit("min-inline-size");
    assert(ascii_lower("min-inline-size"@) =~= "min-inline-size"@);
    reveal_strlit("max-block-size");
    assert(ascii_lower("max-block-size"@) =~= "max-block-size"@);
    reveal_strlit("max-inline-size");
    assert(ascii_lower("max-inline-size"@) =~= "max-inline-size"@);
    reveal_strlit("top");
    assert(ascii_lower("top"@) =~= "top"@);
    reveal_strlit("bottom");
    assert(ascii_lower("bottom"@) =~= "bottom"@);
    reveal_strlit("left");
    assert(ascii_lower("left"@) =~= "left"@);
    reveal_strlit("right");
    assert(ascii_lower("right"@) =~= "right"@);
    reveal_strlit("inset-block-start");
    assert(ascii_lower("inset-block-start"@) =~= "inset-block-start"@);
    reveal_strlit("inset-block-end");
    assert(ascii_lower("inset-block-end"@) =~= "inset-block-end"@);
    reveal_strlit("inset-inline-start");
    assert(ascii_lower("inset-inline-start"@) =~= "inset-inline-start"@);
    reveal_strlit("inset-inline-end");
    assert(ascii_lower("inset-inline-end"@) =~= "inset-inline-end"@);
    reveal_strlit("border-top-color");
    assert(ascii_lower("border-top-color"@) =~= "border-top-color"@);
    reveal_strlit("border-bottom-color");
    assert(ascii_lower("border-bottom-color"@) =~= "border-bottom-color"@);
    reveal_strlit("border-left-color");
    assert(ascii_lower("border-left-color"@) =~= "border-left-color"@);
    reveal_strlit("border-right-color");
    assert(ascii_lower("border-right-color"@) =~= "border-right-color"@);
    reveal_strlit("border-block-start-color");
    assert(ascii_lower("border-block-start-color"@) =~= "border-block-start-color"@);
    reveal_strlit("border-block-end-color");
    assert(ascii_lower("border-block-end-color"@) =~= "border-block-end-color"@);
    reveal_strlit("border-inline-start-color");
    assert(ascii_lower("border-inline-start-color"@) =~= "border-inline-start-color"@);
    reveal_strlit("border-inline-end-color");
    assert(ascii_lower("border-inline-end-color"@) =~= "border-inline-end-color"@);
    reveal_strlit("border-top-style");
    assert(ascii_lower("border-top-style"@) =~= "border-top-style"@);
    reveal_strlit("border-bottom-style");
    assert(ascii_lower("border-bottom-style"@) =~= "border-bottom-style"@);
    reveal_strlit("border-left-style");
    assert(ascii_lower("border-left-style"@) =~= "border-left-style"@);
    reveal_strlit("border-right-style");
    assert(ascii_lower("border-right-style"@) =~= "border-right-style"@);
    reveal_strlit("border-block-start-style");
    assert(ascii_lower("border-block-start-style"@) =~= "border-block-start-style"@);
    reveal_strlit("border-block-end-style");
    assert(ascii_lower("border-block-end-style"@) =~= "border-block-end-style"@);
    reveal_strlit("border-inline-start-style");
    assert(ascii_lower("border-inline-start-style"@) =~= "border-inline-start-style"@);
    reveal_strlit("border-inline-end-style");
    assert(ascii_lower("border-inline-end-style"@) =~= "border-inline-end-style"@);
    reveal_strlit("border-top-width");
    assert(ascii_lower("border-top-width"@) =~= "border-top-width"@);
    reveal_strlit("border-bottom-width");
    assert(ascii_lower("border-bottom-width"@) =~= "border-bottom-width"@);
    reveal_strlit("border-left-width");
    assert(ascii_lower("border-left-width"@) =~= "border-left-width"@);
    reveal_strlit("border-right-width");
    assert(ascii_lower("border-right-width"@) =~= "border-right-width"@);
    reveal_strlit("border-block-start-width");
    assert(ascii_lower("border-block-start-width"@) =~= "border-block-start-width"@);
    reveal_strlit("border-block-end-width");
    assert(ascii_lower("border-block-end-width"@) =~= "border-block-end-width"@);
    reveal_strlit("border-inline-start-width");
    assert(ascii_lower("border-inline-start-width"@) =~= "border-inline-start-width"@);
    reveal_strlit("border-inline-end-width");
    assert(ascii_lower("border-inline-end-width"@) =~= "border-inline-end-width"@);
    reveal_strlit("border-top-left-radius");
    assert(ascii_lower("border-top-left-radius"@) =~= "border-top-left-radius"@);
    reveal_strlit("border-top-right-radius");
    assert(ascii_lower("border-top-right-radius"@) =~= "border-top-right-radius"@);
    reveal_strlit("border-bottom-left-radius");
    assert(ascii_lower("border-bottom-left-radius"@) =~= "border-bottom-left-radius"@);
    reveal_strlit("border-bottom-right-radius");
    assert(ascii_lower("border-bottom-right-radius"@) =~= "border-bottom-right-radius"@);
    reveal_strlit("border-start-start-radius");
    assert(ascii_lower("border-start-start-radius"@) =~= "border-start-start-radius"@);
    reveal_strlit("border-start-end-radius");
    assert(ascii_lower("border-start-end-radius"@) =~= "border-start-end-radius"@);
    reveal_strlit("border-end-start-radius");
    assert(ascii_lower("border-end-start-radius"@) =~= "border-end-start-radius"@);
    reveal_strlit("border-end-end-radius");
    assert(ascii_lower("border-end-end-radius"@) =~= "border-end-end-radius"@);
    reveal_strlit("border-radius");
    assert(ascii_lower("border-radius"@) =~= "border-radius"@);
    reveal_strlit("border-image-source");
    assert(ascii_lower("border-image-source"@) =~= "border-image-source"@);
    reveal_strlit("border-image-outset");
    assert(ascii_lower("border-image-outset"@) =~= "border-image-outset"@);
    reveal_strlit("border-image-repeat");
    assert(ascii_lower("border-image-repeat"@) =~= "border-image-repeat"@);
    reveal_strlit("border-image-width");
    assert(ascii_lower("border-image-width"@) =~= "border-image-width"@);
    reveal_strlit("border-image-slice");
    assert(ascii_lower("border-image-slice"@) =~= "border-image-slice"@);
    reveal_strlit("border-image");
    assert(ascii_lower("border-image"@) =~= "border-image"@);
    reveal_strlit("border-color");
    assert(ascii_lower("border-color"@) =~= "border-color"@);
    reveal_strlit("border-style");
    assert(ascii_lower("border-style"@) =~= "border-style"@);
    reveal_strlit("border-width");
    assert(ascii_lower("border-width"@) =~= "border-width"@);
    reveal_strlit("border-block-color");
    assert(ascii_lower("border-block-color"@) =~= "border-block-color"@);
    reveal_strlit("border-block-style");
    assert(ascii_lower("border-block-style"@) =~= "border-block-style"@);
    reveal_strlit("border-block-width");
    assert(ascii_lower("border-block-width"@) =~= "border-block-width"@);
    reveal_strlit("border-inline-color");
    assert(ascii_lower("border-inline-color"@) =~= "border-inline-color"@);
    reveal_strlit("border-inline-style");
    assert(ascii_lower("border-inline-style"@) =~= "border-inline-style"@);
    reveal_strlit("border-inline-width");
    assert(ascii_lower("border-inline-width"@) =~= "border-inline-width"@);
    reveal_strlit("border");
    assert(ascii_lower("border"@) =~= "border"@);
    reveal_strlit("border-top");
    assert(ascii_lower("border-top"@) =~= "border-top"@);
    reveal_strlit("border-bottom");
    assert(ascii_lower("border-bottom"@) =~= "border-bottom"@);
    reveal_strlit("border-left");
    assert(ascii_lower("border-left"@) =~= "border-left"@);
    reveal_strlit("border-right");
    assert(ascii_lower("border-right"@) =~= "border-right"@);
    reveal_strlit("border-block");
    assert(ascii_lower("border-block"@) =~= "border-block"@);
    reveal_strlit("border-block-start");
    assert(ascii_lower("border-block-start"@) =~= "border-block-start"@);
    reveal_strlit("border-block-end");
    assert(ascii_lower("border-block-end"@) =~= "border-block-end"@);
    reveal_strlit("border-inline");
    assert(ascii_lower("border-inline"@) =~= "border-inline"@);
    reveal_strlit("border-inline-start");
    assert(ascii_lower("border-inline-start"@) =~= "border-inline-start"@);
    reveal_strlit("border-inline-end");
    assert(ascii_lower("border-inline-end"@) =~= "border-inline-end"@);
    reveal_strlit("outline");
    assert(ascii_lower("outline"@) =~= "outline"@);
    reveal_strlit("outline-color");
    assert(ascii_lower("outline-color"@) =~= "outline-color"@);
    reveal_strlit("outline-style");
    assert(ascii_lower("outline-style"@) =~= "outline-style"@);
    reveal_strlit("outline-width");
    assert(ascii_lower("outline-width"@) =~= "outline-width"@);
    reveal_strlit("flex-direction");
    assert(ascii_lower("flex-direction"@) =~= "flex-direction"@);
    reveal_strlit("flex-wrap");
    assert(ascii_lower("flex-wrap"@) =~= "flex-wrap"@);
    reveal_strlit("flex-flow");
    assert(ascii_lower("flex-flow"@) =~= "flex-flow"@);
    reveal_strlit("flex-grow");
    assert(ascii_lower("flex-grow"@) =~= "flex-grow"@);
    reveal_strlit("flex-shrink");
    assert(ascii_lower("flex-shrink"@) =~= "flex-shrink"@);
    reveal_strlit("flex-basis");
    assert(ascii_lower("flex-basis"@) =~= "flex-basis"@);
    reveal_strlit("flex");
    assert(ascii_lower("flex"@) =~= "flex"@);
    reveal_strlit("align-content");
    assert(ascii_lower("align-content"@) =~= "align-content"@);
    reveal_strlit("justify-content");
    assert(ascii_lower("justify-content"@) =~= "justify-content"@);
    reveal_strlit("place-content");
    assert(ascii_lower("place-content"@) =~= "place-content"@);
    reveal_strlit("align-self");
    assert(ascii_lower("align-self"@) =~= "align-self"@);
    reveal_strlit("justify-self");
    assert(ascii_lower("justify-self"@) =~= "justify-self"@);
    reveal_strlit("place-self");
    assert(ascii_lower("place-self"@) =~= "place-self"@);
    reveal_strlit("align-items");
    assert(ascii_lower("align-items"@) =~= "align-items"@);
    reveal_strlit("justify-items");
    assert(ascii_lower("justify-items"@) =~= "justify-items"@);
    reveal_strlit("place-items");
    assert(ascii_lower("place-items"@) =~= "place-items"@);
    reveal_strlit("row-gap");
    assert(ascii_lower("row-gap"@) =~= "row-gap"@);
    reveal_strlit("column-gap");
    assert(ascii_lower("column-gap"@) =~= "column-gap"@);
    reveal_strlit("gap");
    assert(ascii_lower("gap"@) =~= "gap"@);
    reveal_strlit("margin-top");
    assert(ascii_lower("margin-top"@) =~= "margin-top"@);
    reveal_strlit("margin-bottom");
    assert(ascii_lower("margin-bottom"@) =~= "margin-bottom"@);
    reveal_strlit("margin-left");
    assert(ascii_lower("margin-left"@) =~= "margin-left"@);
    reveal_strlit("margin-right");
    assert(ascii_lower("margin-right"@) =~= "margin-right"@);
    reveal_strlit("margin-block-start");
    assert(ascii_lower("margin-block-start"@) =~= "margin-block-start"@);
    reveal_strlit("margin-block-end");
    assert(ascii_lower("margin-block-end"@) =~= "margin-block-end"@);
    reveal_strlit("margin-inline-start");
    assert(ascii_lower("margin-inline-start"@) =~= "margin-inline-start"@);
    reveal_strlit("margin-inline-end");
    assert(ascii_lower("margin-inline-end"@) =~= "margin-inline-end"@);
    reveal_strlit("margin-block");
    assert(ascii_lower("margin-block"@) =~= "margin-block"@);
    reveal_strlit("margin-inline");
    assert(ascii_lower("margin-inline"@) =~= "margin-inline"@);
    reveal_strlit("margin");
    assert(ascii_lower("margin"@) =~= "margin"@);
    reveal_strlit("padding-top");
    assert(ascii_lower("padding-top"@) =~= "padding-top"@);
    reveal_strlit("padding-bottom");
    assert(ascii_lower("padding-bottom"@) =~= "padding-bottom"@);
    reveal_strlit("padding-left");
    assert(ascii_lower("padding-left"@) =~= "padding-left"@);
    reveal_strlit("padding-right");
    assert(ascii_lower("padding-right"@) =~= "padding-right"@);
    reveal_strlit("padding-block-start");
    assert(ascii_lower("padding-block-start"@) =~= "padding-block-start"@);
    reveal_strlit("padding-block-end");
    assert(ascii_lower("padding-block-end"@) =~= "padding-block-end"@);
    reveal_strlit("padding-inline-start");
    assert(ascii_lower("padding-inline-start"@) =~= "padding-inline-start"@);
    reveal_strlit("padding-inline-end");
    assert(ascii_lower("padding-inline-end"@) =~= "padding-inline-end"@);
    reveal_strlit("padding-block");
    assert(ascii_lower("padding-block"@) =~= "padding-block"@);
    reveal_strlit("padding-inline");
    assert(ascii_lower("padding-inline"@) =~= "padding-inline"@);
    reveal_strlit("padding");
    assert(ascii_lower("padding"@) =~= "padding"@);
    reveal_strlit("scroll-margin-top");
    assert(ascii_lower("scroll-margin-top"@) =~= "scroll-margin-top"@);
    reveal_strlit("scroll-margin-bottom");
    assert(ascii_lower("scroll-margin-bottom"@) =~= "scroll-margin-bottom"@);
    reveal_strlit("scroll-margin-left");
    assert(ascii_lower("scroll-margin-left"@) =~= "scroll-margin-left"@);
    reveal_strlit("scroll-margin-right");
    assert(ascii_lower("scroll-margin-right"@) =~= "scroll-margin-right"@);
    reveal_strlit("scroll-margin-block-start");
    assert(ascii_lower("scroll-margin-block-start"@) =~= "scroll-margin-block-start"@);
    reveal_strlit("scroll-margin-block-end");
    assert(ascii_lower("scroll-margin-block-end"@) =~= "scroll-margin-block-end"@);
    reveal_strlit("scroll-margin-inline-start");
    assert(ascii_lower("scroll-margin-inline-start"@) =~= "scroll-margin-inline-start"@);
    reveal_strlit("scroll-margin-inline-end");
    assert(ascii_lower("scroll-margin-inline-end"@) =~= "scroll-margin-inline-end"@);
    reveal_strlit("scroll-margin-block");
    assert(ascii_lower("scroll-margin-block"@) =~= "scroll-margin-block"@);
    reveal_strlit("scroll-margin-inline");
    assert(ascii_lower("scroll-margin-inline"@) =~= "scroll-margin-inline"@);
    reveal_strlit("scroll-margin");
    assert(ascii_lower("scroll-margin"@) =~= "scroll-margin"@);
    reveal_strlit("scroll-padding-top");
    assert(ascii_lower("scroll-padding-top"@) =~= "scroll-padding-top"@);
    reveal_strlit("scroll-padding-bottom");
    assert(ascii_lower("scroll-padding-bottom"@) =~= "scroll-padding-bottom"@);
    reveal_strlit("scroll-padding-left");
    assert(ascii_lower("scroll-padding-left"@) =~= "scroll-padding-left"@);
    reveal_strlit("scroll-padding-right");
    assert(ascii_lower("scroll-padding-right"@) =~= "scroll-padding-right"@);
    reveal_strlit("scroll-padding-block-start");
    assert(ascii_lower("scroll-padding-block-start"@) =~= "scroll-padding-block-start"@);
    reveal_strlit("scroll-padding-block-end");
    assert(ascii_lower("scroll-padding-block-end"@) =~= "scroll-padding-block-end"@);
    reveal_strlit("scroll-padding-inline-start");
    assert(ascii_lower("scroll-padding-inline-start"@) =~= "scroll-padding-inline-start"@);
    reveal_strlit("scroll-padding-inline-end");
    assert(ascii_lower("scroll-padding-inline-end"@) =~= "scroll-padding-inline-end"@);
    reveal_strlit("scroll-padding-block");
    assert(ascii_lower("scroll-padding-block"@) =~= "scroll-padding-block"@);
    reveal_strlit("scroll-padding-inline");
    assert(ascii_lower("scroll-padding-inline"@) =~= "scroll-padding-inline"@);
    reveal_strlit("scroll-padding");
    assert(ascii_lower("scroll-padding"@) =~= "scroll-padding"@);
    reveal_strlit("font-weight");
    assert(ascii_lower("font-weight"@) =~= "font-weight"@);
    reveal_strlit("font-size");
    assert(ascii_lower("font-size"@) =~= "font-size"@);
    reveal_strlit("font-stretch");
    assert(ascii_lower("font-stretch"@) =~= "font-stretch"@);
    reveal_strlit("font-family");
    assert(ascii_lower("font-family"@) =~= "font-family"@);
    reveal_strlit("font-style");
    assert(ascii_lower("font-style"@) =~= "font-style"@);
    reveal_strlit("font-variant-caps");
    assert(ascii_lower("font-variant-caps"@) =~= "font-variant-caps"@);
    reveal_strlit("line-height");
    assert(ascii_lower("line-height"@) =~= "line-height"@);
    reveal_strlit("font");
    assert(ascii_lower("font"@) =~= "font"@);
    reveal_strlit("transition-property");
    assert(ascii_lower("transition-property"@) =~= "transition-property"@);
    reveal_strlit("transition-duration");
    assert(ascii_lower("transition-duration"@) =~= "transition-duration"@);
    reveal_strlit("transition-delay");
    assert(ascii_lower("transition-delay"@) =~= "transition-delay"@);
    reveal_strlit("transition-timing-function");
    assert(ascii_lower("transition-timing-function"@) =~= "transition-timing-function"@);
    reveal_strlit("transition");
    assert(ascii_lower("transition"@) =~= "transition"@);
    reveal_strlit("animation-name");
    assert(ascii_lower("animation-name"@) =~= "animation-name"@);
    reveal_strlit("animation-duration");
    assert(ascii_lower("animation-duration"@) =~= "animation-duration"@);
    reveal_strlit("animation-timing-function");
    assert(ascii_lower("animation-timing-function"@) =~= "animation-timing-function"@);
    reveal_strlit("animation-iteration-count");
    assert(ascii_lower("animation-iteration-count"@) =~= "animation-iteration-count"@);
    reveal_strlit("animation-direction");
    assert(ascii_lower("animation-direction"@) =~= "animation-direction"@);
    reveal_strlit("animation-play-state");
    assert(ascii_lower("animation-play-state"@) =~= "animation-play-state"@);
    reveal_strlit("animation-delay");
    assert(ascii_lower("animation-delay"@) =~= "animation-delay"@);
    reveal_strlit("animation-fill-mode");
    assert(ascii_lower("animation-fill-mode"@) =~= "animation-fill-mode"@);
    reveal_strlit("animation");
    assert(ascii_lower("animation"@) =~= "animation"@);
    reveal_strlit("transform");
    assert(ascii_lower("transform"@) =~= "transform"@);
    reveal_strlit("grid-row-gap");
    assert("grid-row-gap"@.len() == 12);
    reveal_strlit("grid-column-gap");
    assert("grid-column-gap"@.len() == 15);
    reveal_strlit("grid-gap");
    assert("grid-gap"@.len() == 8);
    // Two names differ in length or in one of their characters; no name has more
    // than 27 of them.
    let s = a.name_text();
    let t = b.name_text();
    assert(a != b ==> s.len() != t.len()
        || s[0] != t[0]
        || s[1] != t[1]
        || s[2] != t[2]
        || s[3] != t[3]
        || s[4] != t[4]
        || s[5] != t[5]
        || s[6] != t[6]
        || s[7] != t[7]
        || s[8] != t[8]
        || s[9] != t[9]
        || s[10] != t[10]
        || s[11] != t[11]
        || s[12] != t[12]
        || s[13] != t[13]
        || s[14] != t[14]
        || s[15] != t[15]
        || s[16] != t[16]
        || s[17] != t[17]
        || s[18] != t[18]
        || s[19] != t[19]
        || s[20] != t[20]
        || s[21] != t[21]
        || s[22] != t[22]
        || s[23] != t[23]
        || s[24] != t[24]
        || s[25] != t[25]
        || s[26] != t[26]
    );
    assert(legacy_name(text) is Some ==> s.len() != text.len()
        || s[0] != text[0]
        || s[1] != text[1]
        || s[2] != text[2]
        || s[3] != text[3]
        || s[4] != text[4]
        || s[5] != text[5]
        || s[6] != text[6]
        || s[7] != text[7]
        || s[8] != text[8]
        || s[9] != text[9]
        || s[10] != text[10]
        || s[11] != text[11]
        || s[12] != text[12]
        || s[13] != text[13]
        || s[14] != text[14]
        || s[15] != text[15]
        || s[16] != text[16]
        || s[17] != text[17]
        || s[18] != text[18]
        || s[19] != text[19]
        || s[20] != text[20]
        || s[21] != text[21]
        || s[22] != text[22]
        || s[23] != text[23]
        || s[24] != text[24]
        || s[25] != text[25]
        || s[26] != text[26]
    );
}

/// Every canonical name is written in small letters.
pub proof fn lemma_names_lowercase(id: PropertyId)
    ensures
        ascii_lower(id.name_text()) == id.name_text(),
{
    lemma_table(id, id, Seq::empty());
}

/// No two properties share a canonical name.
pub proof fn lemma_names_distinct(a: PropertyId, b: PropertyId)
    requires
        a != b,
    ensures
        a.name_text() != b.name_text(),
{
    lemma_table(a, b, Seq::empty());
}

/// No legacy spelling is the canonical name of a property.
pub proof fn lemma_legacy_names_apart(id: PropertyId, text: Seq<char>)
    requires
        legacy_name(text) is Some,
    ensures
        id.name_text() != text,
{
    lemma_table(id, id, text);
}

/// A name that starts with a hyphen, as every custom property `--*` and every
/// vendor-prefixed name does, is not in the table.
pub proof fn lemma_dashed_name_is_unknown(name: Seq<char>)
    requires
        name.len() > 0,
        name[0] == '-',
    ensures
        property_named(name) is None,
{
    let text = ascii_lower(name);
    assert(text[0] == '-');
    assert forall|id: PropertyId| id.name_text() != text by {
        lemma_table(id, id, Seq::empty());
    }
    assert(legacy_name(text) is None) by {
        lemma_legacy_names_lowercase();
        lemma_legacy_names_start();
    }
}

/// Every legacy spelling starts with a letter.
proof fn lemma_legacy_names_start()
    ensures
        forall|text: Seq<char>| legacy_name(text) is Some ==> text.len() > 0 && text[0] == 'g',
{
    reveal_strlit("grid-row-gap");
    reveal_strlit("grid-column-gap");
    reveal_strlit("grid-gap");
}

/// The legacy spellings are written in small letters.
proof fn lemma_legacy_names_lowercase()
    ensures
        ascii_lower("grid-row-gap"@) == "grid-row-gap"@,
        ascii_lower("grid-column-gap"@) == "grid-column-gap"@,
        ascii_lower("grid-gap"@) == "grid-gap"@,
{
    reveal_strlit("grid-row-gap");
    assert(ascii_lower("grid-row-gap"@) =~= "grid-row-gap"@);
    reveal_strlit("grid-column-gap");
    assert(ascii_lower("grid-column-gap"@) =~= "grid-column-gap"@);
    reveal_strlit("grid-gap");
    assert(ascii_lower("grid-gap"@) =~= "grid-gap"@);
}

/// A property is found under its canonical name.
pub proof fn lemma_found_by_name(id: PropertyId)
    ensures
        property_named(id.name_text()) == Some(id),
{
    lemma_names_lowercase(id);
    let text = ascii_lower(id.name_text());
    let found = choose|other: PropertyId| other.name_text() == text;
    if found != id {
        lemma_names_distinct(found, id);
    }
}

/// What is found under a name answers to that name in small letters, and where
/// nothing is found, no property answers to it.
pub proof fn lemma_found_answers(name: Seq<char>)
    ensures
        match property_named(name) {
            Some(id) => answers_to(id, ascii_lower(name)),
            None => forall|id: PropertyId| !answers_to(id, ascii_lower(name)),
        },
{
}

/// At most one property answers to a name.
pub proof fn lemma_answer_unique(a: PropertyId, b: PropertyId, text: Seq<char>)
    requires
        answers_to(a, text),
        answers_to(b, text),
    ensures
        a == b,
{
    if legacy_name(text) is Some {
        lemma_legacy_names_apart(a, text);
        lemma_legacy_names_apart(b, text);
    } else if a != b {
        lemma_names_distinct(a, b);
    }
}

/// The case of a name does not matter.
pub proof fn lemma_case_insensitive(a: Seq<char>, b: Seq<char>)
    requires
        ascii_lower(a) == ascii_lower(b),
    ensures
        property_named(a) == property_named(b),
{
}

/// Each legacy spelling finds the property that its modern name finds.
pub proof fn lemma_legacy_names()
    ensures
        property_named("grid-row-gap"@) == Some(PropertyId::RowGap),
        property_named("grid-row-gap"@) == property_named("row-gap"@),
        property_named("grid-column-gap"@) == Some(PropertyId::ColumnGap),
        property_named("grid-column-gap"@) == property_named("column-gap"@),
        property_named("grid-gap"@) == Some(PropertyId::Gap),
        property_named("grid-gap"@) == property_named("gap"@),
{
    lemma_legacy_names_lowercase();
    reveal_strlit("grid-row-gap");
    reveal_strlit("grid-column-gap");
    reveal_strlit("grid-gap");
    assert("grid-row-gap"@.len() == 12);
    assert("grid-column-gap"@.len() == 15);
    assert("grid-gap"@.len() == 8);
    lemma_found_by_name(PropertyId::RowGap);
    assert forall|id: PropertyId| id.name_text() != "grid-row-gap"@ by {
        lemma_legacy_names_apart(id, "grid-row-gap"@);
    }
    lemma_found_by_name(PropertyId::ColumnGap);
    assert forall|id: PropertyId| id.name_text() != "grid-column-gap"@ by {
        lemma_legacy_names_apart(id, "grid-column-gap"@);
    }
    lemma_found_by_name(PropertyId::Gap);
    assert forall|id: PropertyId| id.name_text() != "grid-gap"@ by {
        lemma_legacy_names_apart(id, "grid-gap"@);
    }
}

/// Two properties at the same place in the table are the same.
proof fn lemma_index_injective(a: PropertyId, b: PropertyId)
    requires
        a.spec_index() == b.spec_index(),
    ensures
        a == b,
{
}

impl PropertyId {
    /// Finds the property that a name stands for, without regard to ASCII case.
    pub fn from_name(name: &str) -> (found: Option<PropertyId>)
        ensures
            found == property_named(name@),
    {
        let ghost text = ascii_lower(name@);
        let mut i: usize = 0;
        while i < PROPERTY_COUNT
            invariant
                i <= PROPERTY_COUNT,
                text == ascii_lower(name@),
                forall|id: PropertyId| id.spec_index() < i ==> id.name_text() != text,
            decreases PROPERTY_COUNT - i,
        {
            if let Some(id) = PropertyId::from_index(i) {
                proof {
                    lemma_names_lowercase(id);
                }
                if eq_ignore_ascii_case(name, id.name()) {
                    proof {
                        lemma_ascii_lower_idempotent(name@);
                        lemma_case_insensitive(name@, text);
                        lemma_found_by_name(id);
                    }
                    return Some(id);
                }
                proof {
                    assert forall|other: PropertyId| other.spec_index() < i + 1 implies
                        other.name_text() != text by {
                        if other.spec_index() == i {
                            lemma_index_injective(other, id);
                        }
                    }
                }
            }
            i += 1;
        }
        proof {
            lemma_legacy_names_lowercase();
            assert forall|id: PropertyId| id.name_text() != text by {
                assert(id.spec_index() < PROPERTY_COUNT);
            }
        }
        if eq_ignore_ascii_case(name, "grid-row-gap") {
            return Some(PropertyId::RowGap);
        }
        if eq_ignore_ascii_case(name, "grid-column-gap") {
            return Some(PropertyId::ColumnGap);
        }
        if eq_ignore_ascii_case(name, "grid-gap") {
            return Some(PropertyId::Gap);
        }
        None
    }
}

} // verus!
