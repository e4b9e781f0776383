//! What a value type offers: it reads itself from a cursor and writes itself as CSS.
//!
//! The grammars of the value types are not part of this crate. A user supplies one
//! type that holds every value, and implements these two traits for it. The
//! contracts of the methods are what the crate's proofs take from an
//! implementation: nothing here checks them.

use crate::cursor::{pending, same_input, unread};
use crate::ident::ValueKind;
use crate::printer::Printer;
use cssparser::Parser;
use vstd::prelude::*;

verus! {

/// A value did not match its grammar, or there was nothing to read.
#[derive(Clone, Copy, Debug, PartialEq, Eq, Structural)]
pub struct ParseFailure;

/// Whether a value is one that the grammar `kind` reads from some text.
pub open spec fn follows_grammar<V: Parse>(kind: ValueKind, value: V) -> bool {
    exists|text: Seq<char>|
        (#[trigger] V::parsed(kind, text)) matches Some((read, _)) && read == value
}

/// Reading a value from a cursor.
pub trait Parse: Sized {
    /// What the grammar `kind` reads from the start of `text`: the value and the
    /// number of characters used, or `None` where the text does not match.
    spec fn parsed(kind: ValueKind, text: Seq<char>) -> Option<(Self, nat)>;

    /// Reads one value of the grammar `kind`. The outcome depends on the text to
    /// read alone; the parser moves forward over what was used, leaves no block
    /// pending after a value, and keeps reading the same input. A value is handed
    /// out only where the grammar reads it from some text.
    fn parse(kind: ValueKind, input: &mut Parser<'_>) -> (r: Result<Self, ParseFailure>)
        ensures
            same_input(old(input), final(input)),
            r matches Ok(value) ==> exists|text: Seq<char>|
                (#[trigger] Self::parsed(kind, text)) matches Some((read, _)) && read == value,
            !pending(old(input)) ==> match r {
                Ok(value) => {
                    &&& Self::parsed(kind, unread(old(input))) matches Some((v, used))
                    &&& v == value
                    &&& used <= unread(old(input)).len()
                    &&& unread(final(input)) == unread(old(input)).skip(used as int)
                    &&& !pending(final(input))
                },
                Err(_) => Self::parsed(kind, unread(old(input))) is None,
            },
    ;
}

/// Writing a value as CSS.
pub trait ToCss {
    /// The canonical text of the value, compact or spaced.
    spec fn css(&self, minify: bool) -> Seq<char>;

    /// Appends the canonical text of the value to the printer.
    fn to_css(&self, dest: &mut Printer)
        ensures
            final(dest).minify() == old(dest).minify(),
            final(dest)@ == old(dest)@ + self.css(old(dest).minify()),
    ;
}

} // verus!
