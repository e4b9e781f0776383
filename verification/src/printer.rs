//! The printer: the text written so far, and the choice between compact and spaced
//! output.

use vstd::prelude::*;
use vstd::string::*;

verus! {

/// Collects CSS text. In compact mode no optional white space is written.
pub struct Printer {
    dest: String,
    minify: bool,
}

impl View for Printer {
    type V = Seq<char>;

    /// The text written so far.
    closed spec fn view(&self) -> Seq<char> {
        self.dest@
    }
}

/// The optional white space of a mode: nothing when compact, one space when spaced.
pub open spec fn whitespace_text(minify: bool) -> Seq<char> {
    if minify {
        Seq::empty()
    } else {
        seq![' ']
    }
}

/// A delimiter as a mode writes it: the character between optional white space,
/// the one before it only where it is asked for.
pub open spec fn delim_text(delim: char, ws_before: bool, minify: bool) -> Seq<char> {
    (if ws_before {
        whitespace_text(minify)
    } else {
        Seq::empty()
    }) + seq![delim] + whitespace_text(minify)
}

/// `String::push`: the character is appended.
#[verifier::external_body]
fn push_char(dest: &mut String, c: char)
    ensures
        final(dest)@ == old(dest)@.push(c),
{
    dest.push(c)
}

impl Printer {
    /// A printer that has written nothing.
    pub fn new(minify: bool) -> (printer: Printer)
        ensures
            printer@ == Seq::<char>::empty(),
            printer.minify() == minify,
    {
        Printer { dest: String::new(), minify }
    }

    /// Whether the output is compact.
    pub closed spec fn spec_minify(&self) -> bool {
        self.minify
    }

    /// Whether the output is compact.
    #[verifier::when_used_as_spec(spec_minify)]
    pub fn minify(&self) -> (minify: bool)
        ensures
            minify == self.spec_minify(),
    {
        self.minify
    }

    /// The text written so far.
    pub fn as_str(&self) -> (text: &str)
        ensures
            text@ == self@,
    {
        self.dest.as_str()
    }

    /// Hands out the text written.
    pub fn into_string(self) -> (text: String)
        ensures
            text@ == self@,
    {
        self.dest
    }

    /// Writes a piece of text as it stands.
    pub fn write_str(&mut self, text: &str)
        ensures
            final(self).minify() == old(self).minify(),
            final(self)@ == old(self)@ + text@,
    {
        self.dest.append(text);
    }

    /// Writes one character.
    pub fn write_char(&mut self, c: char)
        ensures
            final(self).minify() == old(self).minify(),
            final(self)@ == old(self)@ + seq![c],
    {
        push_char(&mut self.dest, c);
        assert(self.dest@ =~= old(self).dest@ + seq![c]);
    }

    /// Writes a space, unless the output is compact.
    pub fn whitespace(&mut self)
        ensures
            final(self).minify() == old(self).minify(),
            final(self)@ == old(self)@ + whitespace_text(old(self).minify()),
    {
        if !self.minify {
            self.write_char(' ');
        }
        assert(self@ =~= old(self)@ + whitespace_text(old(self).minify()));
    }

    /// Writes a delimiter, with optional white space after it and, where
    /// `ws_before` asks for it, before it.
    pub fn delim(&mut self, delim: char, ws_before: bool)
        ensures
            final(self).minify() == old(self).minify(),
            final(self)@ == old(self)@ + delim_text(delim, ws_before, old(self).minify()),
    {
        if ws_before {
            self.whitespace();
        }
        self.write_char(delim);
        self.whitespace();
        assert(self@ =~= old(self)@ + delim_text(delim, ws_before, old(self).minify()));
    }
}

} // verus!
