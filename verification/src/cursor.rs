//! The token cursor: `cssparser`'s `Parser`, seen through the text it has yet to read.
//!
//! Verus does not look inside a `Parser`. What this module states of it is believed,
//! not proved: each item below names the `cssparser` function it stands for and says
//! what is claimed of that function.

use crate::ident::ValueKind;
use crate::traits::{follows_grammar, Parse};
use cssparser::{Delimiter, ParseError, Parser, ParserState, Token};
use vstd::prelude::*;

verus! {

/// `cssparser::Parser`, of which the proofs see only what the names below say.
#[verifier::external_type_specification]
#[verifier::external_body]
pub struct ExParser<'i>(Parser<'i>);

/// `cssparser::ParserState`: a place in the input that a parser can be set back to.
#[verifier::external_type_specification]
#[verifier::external_body]
pub struct ExParserState(ParserState);

/// The text that a parser has yet to read: its input from the position where it
/// stands to the end of the input, or to the delimiter that bounds the parser.
pub uninterp spec fn unread(input: &Parser<'_>) -> Seq<char>;

/// Whether a parser has just read the opening of a block or of a function and has
/// not entered it. Such a parser passes over the block before it reads on.
pub uninterp spec fn pending(input: &Parser<'_>) -> bool;

/// The text that `input` has yet to read once it is reset to `state`.
pub uninterp spec fn restored(input: &Parser<'_>, state: &ParserState) -> Seq<char>;

/// Whether a state was taken from a parser that had a block pending.
pub uninterp spec fn state_pending(state: &ParserState) -> bool;

/// How many characters at the start of `text` are white space or comments.
pub uninterp spec fn blank_len(text: Seq<char>) -> nat;

/// How far the first comma-separated item of `text` reaches: the offset of the first
/// comma that stands outside every block, function, string and comment, or the
/// length of `text` where there is none.
pub uninterp spec fn item_len(text: Seq<char>) -> nat;

/// Two parsers read the same input within the same bounds: a reset to any state
/// leaves both with the same text to read.
pub open spec fn same_input(before: &Parser<'_>, after: &Parser<'_>) -> bool {
    forall|state: ParserState| #[trigger] restored(after, &state) == restored(before, &state)
}

/// `text` without its leading white space and comments.
pub open spec fn skip_blank(text: Seq<char>) -> Seq<char> {
    if blank_len(text) <= text.len() {
        text.skip(blank_len(text) as int)
    } else {
        text
    }
}

/// Whether `text` holds nothing but white space and comments.
pub open spec fn is_blank(text: Seq<char>) -> bool {
    blank_len(text) >= text.len()
}

/// The first comma-separated item of `text`.
pub open spec fn first_item(text: Seq<char>) -> Seq<char> {
    if item_len(text) <= text.len() {
        text.take(item_len(text) as int)
    } else {
        text
    }
}

/// What follows the first comma-separated item of `text`: nothing, or a comma and
/// the other items.
pub open spec fn after_item(text: Seq<char>) -> Seq<char> {
    if item_len(text) <= text.len() {
        text.skip(item_len(text) as int)
    } else {
        Seq::empty()
    }
}

/// What reading one item of the grammar `kind` from `text` gives, where the item
/// must fill `text` up to its first top-level comma: the value, or `None` where the
/// grammar fails or leaves something of the item unread.
pub open spec fn item_value<V: Parse>(kind: ValueKind, text: Seq<char>) -> Option<V> {
    match V::parsed(kind, first_item(text)) {
        Some((value, used)) => if used <= first_item(text).len() && is_blank(
            first_item(text).skip(used as int),
        ) {
            Some(value)
        } else {
            None
        },
        None => None,
    }
}

/// What reading a comma-separated list of the grammar `kind` from the whole of
/// `text` gives: every item in the order met, or `None` where one of them fails.
pub open spec fn list_value<V: Parse>(kind: ValueKind, text: Seq<char>) -> Option<Seq<V>>
    decreases text.len(),
{
    let items = skip_blank(text);
    match item_value::<V>(kind, items) {
        None => None,
        Some(value) => if item_len(items) < items.len() {
            match list_value::<V>(kind, items.skip(item_len(items) as int + 1)) {
                Some(others) => Some(seq![value] + others),
                None => None,
            }
        } else {
            Some(seq![value])
        },
    }
}

/// `Parser::new`: the parser has the whole of the text to read and no bound.
#[verifier::external_body]
pub(crate) fn parser_over<'i>(text: &'i str) -> (input: Parser<'i>)
    ensures
        unread(&input) == text@,
        !pending(&input),
{
    Parser::new(text)
}

/// `Parser::state`: the state that is handed out brings the parser back to where it
/// stands now.
#[verifier::external_body]
pub(crate) fn checkpoint(input: &Parser<'_>) -> (state: ParserState)
    ensures
        restored(input, &state) == unread(input),
        state_pending(&state) == pending(input),
{
    input.state()
}

/// `Parser::reset`: the parser stands where the state was taken, and reads the same
/// input as before.
#[verifier::external_body]
pub(crate) fn rewind(input: &mut Parser<'_>, state: &ParserState)
    ensures
        unread(final(input)) == restored(old(input), state),
        pending(final(input)) == state_pending(state),
        same_input(old(input), final(input)),
{
    input.reset(state)
}

/// `Parser::skip_whitespace`: the parser passes over a pending block, then over
/// white space and comments, and nothing else.
#[verifier::external_body]
pub(crate) fn skip_whitespace(input: &mut Parser<'_>)
    ensures
        !pending(final(input)),
        same_input(old(input), final(input)),
        unread(final(input)).len() <= unread(old(input)).len(),
        !pending(old(input)) ==> blank_len(unread(old(input))) <= unread(old(input)).len()
            && unread(final(input)) == skip_blank(unread(old(input))),
{
    input.skip_whitespace()
}

/// `Parser::parse_until_before` with `Delimiter::Comma`, handing the delimited parser
/// to the grammar `kind`: the value is kept only where the grammar reads the whole
/// item, and the parser then stands at the end of its input or before the comma that
/// ends the item, whatever the grammar did.
#[verifier::external_body]
pub(crate) fn parse_item<V: Parse>(input: &mut Parser<'_>, kind: ValueKind) -> (value: Option<V>)
    ensures
        !pending(final(input)),
        same_input(old(input), final(input)),
        unread(final(input)).len() == 0 || unread(final(input))[0] == ',',
        value matches Some(read) ==> follows_grammar(kind, read),
        !pending(old(input)) ==> value == item_value::<V>(kind, unread(old(input))),
        !pending(old(input)) && value is Some ==> item_len(unread(old(input))) <= unread(
            old(input),
        ).len() && unread(final(input)) == after_item(unread(old(input))),
{
    input.parse_until_before(
        Delimiter::Comma,
        |item| V::parse(kind, item).map_err(|_| ParseError::<()>::custom(())),
    ).ok()
}

/// `Parser::next`, asked whether the token is a comma: it is one where the text to
/// read starts with a comma, which is then read, and none where no text is left.
#[verifier::external_body]
pub(crate) fn next_is_comma(input: &mut Parser<'_>) -> (comma: bool)
    ensures
        same_input(old(input), final(input)),
        unread(final(input)).len() <= unread(old(input)).len(),
        !pending(old(input)) && unread(old(input)).len() == 0 ==> !comma && !pending(
            final(input),
        ),
        !pending(old(input)) && unread(old(input)).len() > 0 && unread(old(input))[0] == ','
            ==> comma && !pending(final(input)) && unread(final(input)) == unread(
            old(input),
        ).skip(1),
{
    matches!(input.next(), Ok(&Token::Comma))
}

/// `Parser::parse_comma_separated`, handing each delimited parser to the grammar
/// `kind`: the items in the order met, or `None` the first time that one of them
/// fails or leaves a part of itself unread. A list holds at least one item, and
/// after it the parser has read all.
#[verifier::external_body]
pub(crate) fn parse_items<V: Parse>(input: &mut Parser<'_>, kind: ValueKind) -> (values: Option<
    Vec<V>,
>)
    ensures
        same_input(old(input), final(input)),
        values matches Some(list) ==> list.len() > 0 && unread(final(input)).len() == 0
            && !pending(final(input)),
        values matches Some(list) ==> forall|i: int|
            0 <= i < list.len() ==> follows_grammar(kind, #[trigger] list[i]),
        !pending(old(input)) ==> match values {
            Some(list) => list_value::<V>(kind, unread(old(input))) == Some(list@),
            None => list_value::<V>(kind, unread(old(input))) is None,
        },
{
    input.parse_comma_separated(
        |item| V::parse(kind, item).map_err(|_| ParseError::<()>::custom(())),
    ).ok()
}

/// `Parser::next_including_whitespace_and_comments`, asked whether there was a
/// token: each token shortens the text to read, and there is none only at its end.
#[verifier::external_body]
pub(crate) fn advance(input: &mut Parser<'_>) -> (token: bool)
    ensures
        same_input(old(input), final(input)),
        token ==> unread(final(input)).len() < unread(old(input)).len(),
        !token ==> unread(final(input)).len() == 0 && !pending(final(input)),
        !pending(old(input)) && unread(old(input)).len() > 0 ==> token,
{
    input.next_including_whitespace_and_comments().is_ok()
}

/// `Parser::slice_from`, from the position of a state: the text between that
/// position and the one where the parser stands. With what is left to read it makes
/// up what was left to read at the state.
#[verifier::external_body]
pub(crate) fn read_since(input: &Parser<'_>, state: &ParserState) -> (text: String)
    requires
        unread(input).len() <= restored(input, state).len(),
    ensures
        restored(input, state) == text@ + unread(input),
{
    input.slice_from(state.position()).to_owned()
}

} // verus!
