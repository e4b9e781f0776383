//! Custom properties: declarations kept as raw text, because the name is unknown or
//! the value does not follow the grammar of the name.

use crate::cursor::{
    advance, checkpoint, pending, read_since, rewind, same_input, skip_blank, skip_whitespace,
    unread,
};
use crate::printer::{delim_text, Printer};
use crate::traits::ParseFailure;
use cssparser::Parser;
use vstd::prelude::*;
use vstd::string::*;

verus! {

/// A declaration kept as it was written: the name, and the text of the value.
#[derive(Debug, Clone, PartialEq, Eq)]
pub struct CustomProperty {
    pub name: String,
    pub value: String,
}

/// The white space of CSS: space, tab, line feed, carriage return and form feed.
pub open spec fn is_css_whitespace(c: char) -> bool {
    c == ' ' || c == '\t' || c == '\n' || c == '\r' || c == '\x0C'
}

/// `text` without the white space at its end.
pub open spec fn trim_end(text: Seq<char>) -> Seq<char>
    decreases text.len(),
{
    if text.len() > 0 && is_css_whitespace(text.last()) {
        trim_end(text.drop_last())
    } else {
        text
    }
}

/// The raw value that a text holds: the text without the white space and comments
/// at its start and without the white space at its end.
pub open spec fn raw_value(text: Seq<char>) -> Seq<char> {
    trim_end(skip_blank(text))
}

/// What is left of a trimmed text is a part of the text.
pub proof fn lemma_trim_end_is_prefix(text: Seq<char>)
    ensures
        trim_end(text).len() <= text.len(),
        trim_end(text) == text.take(trim_end(text).len() as int),
        trim_end(text).len() > 0 ==> !is_css_whitespace(trim_end(text).last()),
    decreases text.len(),
{
    if text.len() > 0 && is_css_whitespace(text.last()) {
        lemma_trim_end_is_prefix(text.drop_last());
        let kept = trim_end(text.drop_last()).len() as int;
        assert(text.drop_last().take(kept) =~= text.take(kept));
    } else {
        assert(text.take(text.len() as int) =~= text);
    }
}

/// The raw value is a part of the text as it stands: what lies between the white
/// space and comments at its start and the white space at its end.
pub proof fn lemma_raw_value_is_part_of_text(text: Seq<char>)
    ensures
        skip_blank(text).len() <= text.len(),
        raw_value(text).len() <= skip_blank(text).len(),
        raw_value(text) == text.subrange(
            text.len() - skip_blank(text).len(),
            text.len() - skip_blank(text).len() + raw_value(text).len(),
        ),
{
    lemma_trim_end_is_prefix(skip_blank(text));
    let from = text.len() - skip_blank(text).len();
    assert(skip_blank(text) =~= text.skip(from));
    assert(text.skip(from).take(raw_value(text).len() as int) =~= text.subrange(
        from,
        from + raw_value(text).len(),
    ));
}

fn is_whitespace(c: char) -> (r: bool)
    ensures
        r == is_css_whitespace(c),
{
    c == ' ' || c == '\t' || c == '\n' || c == '\r' || c == '\x0C'
}

/// Removes the white space at the end of a text.
pub fn trim_trailing(text: String) -> (trimmed: String)
    ensures
        trimmed@ == trim_end(text@),
{
    let whole = text.as_str();
    let len = whole.unicode_len();
    let mut end = len;
    proof {
        assert(whole@.take(end as int) =~= whole@);
    }
    while end > 0 && is_whitespace(whole.get_char(end - 1))
        invariant
            end <= len,
            len == whole@.len(),
            trim_end(whole@) == trim_end(whole@.take(end as int)),
        decreases end,
    {
        proof {
            assert(whole@.take(end as int).drop_last() =~= whole@.take(end as int - 1));
        }
        end = end - 1;
    }
    if end == len {
        proof {
            assert(whole@.take(end as int) =~= whole@);
        }
        text
    } else {
        whole.substring_char(0, end).to_owned()
    }
}

impl CustomProperty {
    /// What is kept of a declaration whose value is the text `text`: the name as it
    /// is, and the raw value. There must be something to read, if only white space.
    pub open spec fn parsed(name: Seq<char>, text: Seq<char>) -> Option<(Seq<char>, Seq<char>)> {
        if text.len() > 0 {
            Some((name, raw_value(text)))
        } else {
            None
        }
    }

    /// Reads all that is left of a value as raw text. Fails only where nothing at
    /// all is left to read.
    pub fn parse(name: &str, input: &mut Parser<'_>) -> (r: Result<CustomProperty, ParseFailure>)
        ensures
            same_input(old(input), final(input)),
            unread(final(input)).len() == 0,
            r matches Ok(custom) ==> custom.name@ == name@,
            !pending(old(input)) ==> match r {
                Ok(custom) => Self::parsed(name@, unread(old(input))) == Some(
                    (custom.name@, custom.value@),
                ),
                Err(_) => Self::parsed(name@, unread(old(input))) is None,
            },
    {
        let start = checkpoint(input);
        if !advance(input) {
            return Err(ParseFailure);
        }
        rewind(input, &start);
        skip_whitespace(input);
        let mark = checkpoint(input);
        while advance(input)
            invariant
                same_input(old(input), input),
            decreases unread(input).len(),
        {
        }
        let text = read_since(input, &mark);
        proof {
            assert(text@ + unread(input) =~= text@);
        }
        Ok(CustomProperty { name: name.to_owned(), value: trim_trailing(text) })
    }

    /// The text of the declaration: the name, a colon, and the value as it was kept.
    pub open spec fn css(&self, minify: bool) -> Seq<char> {
        self.name@ + delim_text(':', false, minify) + self.value@
    }

    /// Writes the declaration as it was kept.
    pub fn to_css(&self, dest: &mut Printer)
        ensures
            final(dest).minify() == old(dest).minify(),
            final(dest)@ == old(dest)@ + self.css(old(dest).minify()),
    {
        dest.write_str(self.name.as_str());
        dest.delim(':', false);
        dest.write_str(self.value.as_str());
        assert(dest@ =~= old(dest)@ + self.css(old(dest).minify()));
    }
}

} // verus!
