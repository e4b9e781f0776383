//! Properties: a declaration as data, read from a cursor and written back as CSS.

use crate::cursor::{
    checkpoint, item_len, item_value, list_value, next_is_comma, parse_item, parse_items,
    parser_over, pending, rewind, same_input, skip_blank, skip_whitespace, unread,
};
use crate::custom::{raw_value, CustomProperty};
use crate::ident::{Multiplicity, PropertyId, ValueKind};
use crate::names::property_named;
use crate::printer::{delim_text, Printer};
use crate::traits::{follows_grammar, Parse, ParseFailure, ToCss};
use cssparser::Parser;
use vstd::prelude::*;

verus! {

/// What a known property carries: one value, or the values of a comma-separated
/// list in the order in which they were written.
#[derive(Debug, Clone, PartialEq)]
pub enum Payload<V> {
    Single(V),
    List(Vec<V>),
}

/// One declaration: a known property with values that follow its grammar, or a
/// custom property kept as raw text.
#[derive(Debug, Clone, PartialEq)]
pub enum Property<V> {
    Known(PropertyId, Payload<V>),
    Custom(CustomProperty),
}

/// A payload as a mathematical value.
pub enum PayloadView<V> {
    Single(V),
    List(Seq<V>),
}

/// A property as a mathematical value.
pub enum PropertyView<V> {
    Known(PropertyId, PayloadView<V>),
    Custom { name: Seq<char>, value: Seq<char> },
}

impl<V> View for Payload<V> {
    type V = PayloadView<V>;

    open spec fn view(&self) -> PayloadView<V> {
        match self {
            Payload::Single(value) => PayloadView::Single(*value),
            Payload::List(values) => PayloadView::List(values@),
        }
    }
}

impl<V> View for Property<V> {
    type V = PropertyView<V>;

    open spec fn view(&self) -> PropertyView<V> {
        match self {
            Property::Known(id, payload) => PropertyView::Known(*id, payload@),
            Property::Custom(custom) => PropertyView::Custom {
                name: custom.name@,
                value: custom.value@,
            },
        }
    }
}

impl<V: Parse> PropertyView<V> {
    /// A known property carries what its place in the table asks for: one value,
    /// or a list that is not empty, and each value follows the grammar of the
    /// property.
    pub open spec fn wf(self) -> bool {
        match self {
            PropertyView::Known(id, PayloadView::Single(value)) => !id.multiplicity().is_list()
                && follows_grammar(id.value_kind(), value),
            PropertyView::Known(id, PayloadView::List(values)) => id.multiplicity().is_list()
                && values.len() > 0 && forall|i: int|
                0 <= i < values.len() ==> follows_grammar(id.value_kind(), #[trigger] values[i]),
            PropertyView::Custom { .. } => true,
        }
    }
}

/// The text of a list: the text of each value in order, with a comma between one
/// and the next and none after the last.
pub open spec fn list_css<V: ToCss>(values: Seq<V>, minify: bool) -> Seq<char>
    decreases values.len(),
{
    if values.len() == 0 {
        Seq::empty()
    } else if values.len() == 1 {
        values[0].css(minify)
    } else {
        list_css(values.drop_last(), minify) + delim_text(',', false, minify) + values.last().css(
            minify,
        )
    }
}

/// The text of two lists put together is the text of the first, a comma, and the
/// text of the second: each value is written once, in its place, and no comma
/// stands at either end.
pub proof fn lemma_list_css_concat<V: ToCss>(first: Seq<V>, second: Seq<V>, minify: bool)
    requires
        first.len() > 0,
        second.len() > 0,
    ensures
        list_css(first + second, minify) == list_css(first, minify) + delim_text(
            ',',
            false,
            minify,
        ) + list_css(second, minify),
    decreases second.len(),
{
    let whole = first + second;
    assert(whole.last() == second.last());
    if second.len() == 1 {
        assert(whole.drop_last() =~= first);
    } else {
        assert(whole.drop_last() =~= first + second.drop_last());
        lemma_list_css_concat(first, second.drop_last(), minify);
        assert(list_css(whole, minify) =~= list_css(first, minify) + delim_text(',', false, minify)
            + list_css(second, minify));
    }
}

impl<V: ToCss> PayloadView<V> {
    /// The text of the value or values.
    pub open spec fn css(self, minify: bool) -> Seq<char> {
        match self {
            PayloadView::Single(value) => value.css(minify),
            PayloadView::List(values) => list_css(values, minify),
        }
    }
}

impl<V: ToCss> PropertyView<V> {
    /// The text of the declaration: the name, a colon, and the value.
    pub open spec fn css(self, minify: bool) -> Seq<char> {
        match self {
            PropertyView::Known(id, payload) => id.name_text() + delim_text(':', false, minify)
                + payload.css(minify),
            PropertyView::Custom { name, value } => name + delim_text(':', false, minify) + value,
        }
    }
}

/// What the grammar of a known property reads from `text`: the payload and the
/// text left unread, or `None` where the text does not follow the grammar. A single
/// value may leave text unread; a list reads all or fails.
pub open spec fn known_value<V: Parse>(id: PropertyId, text: Seq<char>) -> Option<
    (PayloadView<V>, Seq<char>),
> {
    if id.multiplicity().is_list() {
        match list_value::<V>(id.value_kind(), text) {
            Some(values) => Some((PayloadView::List(values), Seq::empty())),
            None => None,
        }
    } else {
        match V::parsed(id.value_kind(), text) {
            Some((value, used)) => Some((PayloadView::Single(value), text.skip(used as int))),
            None => None,
        }
    }
}

/// The custom property that a declaration falls back to: the name as written and
/// the raw value, or a failure where there is nothing at all to read.
pub open spec fn fallback<V>(name: Seq<char>, text: Seq<char>) -> Result<
    PropertyView<V>,
    ParseFailure,
> {
    if text.len() > 0 {
        Ok(PropertyView::Custom { name, value: raw_value(text) })
    } else {
        Err(ParseFailure)
    }
}

/// What parsing the declaration `name: text` gives. A name of the table with a
/// value that follows its grammar gives the known property. Anything else falls
/// back to a custom property read from the very start of `text`.
pub open spec fn parse_outcome<V: Parse>(name: Seq<char>, text: Seq<char>) -> Result<
    PropertyView<V>,
    ParseFailure,
> {
    match property_named(name) {
        Some(id) => match known_value::<V>(id, text) {
            Some((payload, _)) => Ok(PropertyView::Known(id, payload)),
            None => fallback(name, text),
        },
        None => fallback(name, text),
    }
}

/// The text left unread once the declaration `name: text` is parsed: what a single
/// value did not use, and nothing in every other case.
pub open spec fn parse_rest<V: Parse>(name: Seq<char>, text: Seq<char>) -> Seq<char> {
    match property_named(name) {
        Some(id) => match known_value::<V>(id, text) {
            Some((_, rest)) => rest,
            None => Seq::empty(),
        },
        None => Seq::empty(),
    }
}

/// Every value of a list that was read follows the grammar.
pub proof fn lemma_list_follows_grammar<V: Parse>(kind: ValueKind, text: Seq<char>)
    requires
        list_value::<V>(kind, text) is Some,
    ensures
        forall|i: int|
            0 <= i < list_value::<V>(kind, text)->0.len() ==> follows_grammar(
                kind,
                #[trigger] list_value::<V>(kind, text)->0[i],
            ),
    decreases text.len(),
{
    let items = skip_blank(text);
    if item_len(items) < items.len() {
        lemma_list_follows_grammar::<V>(kind, items.skip(item_len(items) as int + 1));
    }
}

/// A list that was read holds at least one value, and its first value is the first
/// item of the text.
pub proof fn lemma_list_starts_with_first_item<V: Parse>(kind: ValueKind, text: Seq<char>)
    requires
        list_value::<V>(kind, text) is Some,
    ensures
        list_value::<V>(kind, text)->0.len() > 0,
        item_value::<V>(kind, skip_blank(text)) == Some(list_value::<V>(kind, text)->0[0]),
{
}

/// A text that holds one item and no comma outside blocks gives a list of that one
/// item.
pub proof fn lemma_single_item_list<V: Parse>(kind: ValueKind, text: Seq<char>)
    requires
        item_value::<V>(kind, skip_blank(text)) is Some,
        item_len(skip_blank(text)) >= skip_blank(text).len(),
    ensures
        list_value::<V>(kind, text) == Some(seq![item_value::<V>(kind, skip_blank(text))->0]),
{
}

/// A text whose first item does not follow the grammar gives no list, whatever
/// follows it.
pub proof fn lemma_first_item_gates<V: Parse>(kind: ValueKind, text: Seq<char>)
    requires
        item_value::<V>(kind, skip_blank(text)) is None,
    ensures
        list_value::<V>(kind, text) is None,
{
}

/// A text with a later item that does not follow the grammar gives no list: the
/// items before it are not kept.
pub proof fn lemma_later_item_fails<V: Parse>(kind: ValueKind, text: Seq<char>)
    requires
        item_len(skip_blank(text)) < skip_blank(text).len(),
        list_value::<V>(kind, skip_blank(text).skip(item_len(skip_blank(text)) as int + 1))
            is None,
    ensures
        list_value::<V>(kind, text) is None,
{
}

/// The items of a list are kept in the order in which they are written: the list
/// read from a text is the first item followed by the list read from what follows
/// the comma.
pub proof fn lemma_list_keeps_order<V: Parse>(kind: ValueKind, text: Seq<char>)
    requires
        list_value::<V>(kind, text) is Some,
        item_len(skip_blank(text)) < skip_blank(text).len(),
    ensures
        list_value::<V>(kind, skip_blank(text).skip(item_len(skip_blank(text)) as int + 1))
            is Some,
        list_value::<V>(kind, text)->0 == seq![
            item_value::<V>(kind, skip_blank(text))->0,
        ] + list_value::<V>(
            kind,
            skip_blank(text).skip(item_len(skip_blank(text)) as int + 1),
        )->0,
{
}

/// Parsing gives a property whenever there is anything to read.
pub proof fn lemma_parse_total<V: Parse>(name: Seq<char>, text: Seq<char>)
    requires
        text.len() > 0,
    ensures
        parse_outcome::<V>(name, text) is Ok,
{
}

/// Parsing fails only where there is nothing to read.
pub proof fn lemma_parse_fails_on_nothing<V: Parse>(name: Seq<char>, text: Seq<char>)
    requires
        parse_outcome::<V>(name, text) is Err,
    ensures
        text.len() == 0,
{
}

/// Every property that parsing gives is well formed.
pub proof fn lemma_parse_well_formed<V: Parse>(name: Seq<char>, text: Seq<char>)
    requires
        parse_outcome::<V>(name, text) is Ok,
    ensures
        parse_outcome::<V>(name, text)->Ok_0.wf(),
{
    if property_named(name) is Some {
        let id = property_named(name)->0;
        if id.multiplicity().is_list() && list_value::<V>(id.value_kind(), text) is Some {
            lemma_list_starts_with_first_item::<V>(id.value_kind(), text);
            lemma_list_follows_grammar::<V>(id.value_kind(), text);
        }
    }
}

/// A name that the table does not know gives a custom property with the name as
/// written and the raw value.
pub proof fn lemma_unknown_name_is_custom<V: Parse>(name: Seq<char>, text: Seq<char>)
    requires
        property_named(name) is None,
        text.len() > 0,
    ensures
        parse_outcome::<V>(name, text) == Ok::<PropertyView<V>, ParseFailure>(
            PropertyView::Custom { name, value: raw_value(text) },
        ),
{
}

/// A known name with a value that does not follow its grammar gives a custom
/// property with the name as written and the whole raw value.
pub proof fn lemma_bad_value_is_custom<V: Parse>(name: Seq<char>, text: Seq<char>)
    requires
        property_named(name) matches Some(id) && known_value::<V>(id, text) is None,
        text.len() > 0,
    ensures
        parse_outcome::<V>(name, text) == Ok::<PropertyView<V>, ParseFailure>(
            PropertyView::Custom { name, value: raw_value(text) },
        ),
{
}

/// Two names of one property give the same known property for the same value, and
/// where one of them falls back, so does the other.
pub proof fn lemma_names_of_one_property_agree<V: Parse>(
    a: Seq<char>,
    b: Seq<char>,
    text: Seq<char>,
)
    requires
        property_named(a) is Some,
        property_named(a) == property_named(b),
    ensures
        parse_outcome::<V>(a, text) is Ok && parse_outcome::<V>(a, text)->Ok_0 is Known
            <==> parse_outcome::<V>(b, text) is Ok && parse_outcome::<V>(b, text)->Ok_0 is Known,
        parse_outcome::<V>(a, text) is Ok && parse_outcome::<V>(a, text)->Ok_0 is Known
            ==> parse_outcome::<V>(a, text) == parse_outcome::<V>(b, text),
        parse_rest::<V>(a, text) == parse_rest::<V>(b, text),
{
}

/// Whether the text that a payload is written as reads back as that payload under
/// the grammar of a property. This is a matter of the value types alone.
pub open spec fn reads_back<V: Parse + ToCss>(
    id: PropertyId,
    payload: PayloadView<V>,
    minify: bool,
) -> bool {
    match payload {
        PayloadView::Single(value) => V::parsed(id.value_kind(), value.css(minify)) matches Some(
            (again, _),
        ) && again == value,
        PayloadView::List(values) => list_value::<V>(id.value_kind(), list_css(values, minify))
            == Some(values),
    }
}

/// A known property whose values read back as themselves is parsed back from the
/// text it is written as: from its canonical name and the text of its value.
pub proof fn lemma_round_trip<V: Parse + ToCss>(
    id: PropertyId,
    payload: PayloadView<V>,
    minify: bool,
)
    requires
        PropertyView::Known(id, payload).wf(),
        reads_back(id, payload, minify),
    ensures
        parse_outcome::<V>(id.name_text(), payload.css(minify)) == Ok::<
            PropertyView<V>,
            ParseFailure,
        >(PropertyView::Known(id, payload)),
{
    crate::names::lemma_found_by_name(id);
}

/// Reads a comma-separated list of the grammar `kind`: values are read up to each
/// comma outside blocks until the text ends. The first value that fails makes the
/// list fail.
pub fn parse_list<V: Parse>(input: &mut Parser<'_>, kind: ValueKind) -> (values: Option<Vec<V>>)
    ensures
        same_input(old(input), final(input)),
        values matches Some(list) ==> list.len() > 0 && unread(final(input)).len() == 0
            && !pending(final(input)),
        values matches Some(list) ==> forall|i: int|
            0 <= i < list.len() ==> follows_grammar(kind, #[trigger] list[i]),
        !pending(old(input)) ==> match values {
            Some(list) => list_value::<V>(kind, unread(old(input))) == Some(list@),
            None => list_value::<V>(kind, unread(old(input))) is None,
        },
{
    let mut values: Vec<V> = Vec::new();
    loop
        invariant
            same_input(old(input), input),
            forall|i: int| 0 <= i < values.len() ==> follows_grammar(kind, #[trigger] values[i]),
            !pending(old(input)) ==> !pending(input) && list_value::<V>(kind, unread(old(input)))
                == match list_value::<V>(kind, unread(input)) {
                Some(others) => Some(values@ + others),
                None => None,
            },
        decreases unread(input).len(),
    {
        let ghost before = values@;
        skip_whitespace(input);
        let ghost items = unread(input);
        match parse_item::<V>(input, kind) {
            Some(value) => values.push(value),
            None => {
                return None;
            },
        }
        if !next_is_comma(input) {
            proof {
                if !pending(old(input)) {
                    assert(before + seq![values@.last()] =~= values@);
                }
            }
            return Some(values);
        }
        proof {
            if !pending(old(input)) {
                let others = list_value::<V>(kind, unread(input));
                assert(unread(input) =~= items.skip(item_len(items) as int + 1));
                if others is Some {
                    assert(before + (seq![values@.last()] + others->0) =~= values@ + others->0);
                }
            }
        }
    }
}

impl<V: Parse> Property<V> {
    /// A known property carries what its place in the table asks for: one value,
    /// or a list that is not empty, and each value follows the grammar of the
    /// property.
    pub open spec fn wf(&self) -> bool {
        self@.wf()
    }

    /// Parses the value of the declaration `name`. A name of the table, matched
    /// without regard to ASCII case, has its value read by its grammar. Where the
    /// name is unknown or the value does not follow the grammar, the cursor is set
    /// back to where it stood and the declaration is kept as a custom property.
    /// Parsing fails only where there is nothing at all to read.
    pub fn parse(name: &str, input: &mut Parser<'_>) -> (r: Result<Property<V>, ParseFailure>)
        ensures
            same_input(old(input), final(input)),
            r matches Ok(property) ==> property.wf(),
            r matches Ok(Property::Custom(custom)) ==> custom.name@ == name@,
            r matches Ok(Property::Known(id, _)) ==> property_named(name@) == Some(id),
            !pending(old(input)) && unread(old(input)).len() > 0 ==> r is Ok,
            !pending(old(input)) ==> match r {
                Ok(property) => parse_outcome::<V>(name@, unread(old(input))) == Ok::<
                    PropertyView<V>,
                    ParseFailure,
                >(property@),
                Err(_) => parse_outcome::<V>(name@, unread(old(input))) is Err,
            },
            !pending(old(input)) ==> unread(final(input)) == parse_rest::<V>(
                name@,
                unread(old(input)),
            ),
    {
        let state = checkpoint(input);
        match PropertyId::from_name(name) {
            Some(id) => {
                let kind = id.value_kind();
                match id.multiplicity() {
                    Multiplicity::Single => {
                        match V::parse(kind, input) {
                            Ok(value) => {
                                return Ok(Property::Known(id, Payload::Single(value)));
                            },
                            Err(_) => {},
                        }
                    },
                    Multiplicity::CompactList => {
                        match parse_list::<V>(input, kind) {
                            Some(values) => {
                                return Ok(Property::Known(id, Payload::List(values)));
                            },
                            None => {},
                        }
                    },
                    Multiplicity::GrowableList => {
                        match parse_items::<V>(input, kind) {
                            Some(values) => {
                                return Ok(Property::Known(id, Payload::List(values)));
                            },
                            None => {},
                        }
                    },
                }
            },
            None => {},
        }
        rewind(input, &state);
        match CustomProperty::parse(name, input) {
            Ok(custom) => Ok(Property::Custom(custom)),
            Err(failure) => Err(failure),
        }
    }

    /// Parses the declaration `name: text` from the text of its value. What a
    /// single value leaves unread is not looked at.
    pub fn parse_str(name: &str, text: &str) -> (r: Result<Property<V>, ParseFailure>)
        ensures
            r matches Ok(property) ==> property.wf(),
            text@.len() > 0 ==> r is Ok,
            match r {
                Ok(property) => parse_outcome::<V>(name@, text@) == Ok::<
                    PropertyView<V>,
                    ParseFailure,
                >(property@),
                Err(_) => parse_outcome::<V>(name@, text@) is Err,
            },
    {
        let mut input = parser_over(text);
        Property::parse(name, &mut input)
    }
}

impl<V: ToCss> Property<V> {
    /// Writes the declaration: the name, a colon, and the value. The values of a
    /// list are written in order with a comma between one and the next. A custom
    /// property is written as it was kept.
    pub fn to_css(&self, dest: &mut Printer)
        ensures
            final(dest).minify() == old(dest).minify(),
            final(dest)@ == old(dest)@ + self@.css(old(dest).minify()),
    {
        let ghost minify = dest.minify();
        match self {
            Property::Known(id, payload) => {
                dest.write_str(id.name());
                dest.delim(':', false);
                let ghost head = dest@;
                match payload {
                    Payload::Single(value) => {
                        value.to_css(dest);
                    },
                    Payload::List(values) => {
                        let mut i: usize = 0;
                        while i < values.len()
                            invariant
                                i <= values.len(),
                                dest.minify() == minify,
                                dest@ == head + list_css(values@.take(i as int), minify),
                            decreases values.len() - i,
                        {
                            if i > 0 {
                                dest.delim(',', false);
                            }
                            values[i].to_css(dest);
                            proof {
                                let now = values@.take(i as int + 1);
                                assert(now.drop_last() =~= values@.take(i as int));
                                assert(now.last() == values@[i as int]);
                                assert(dest@ =~= head + list_css(now, minify));
                            }
                            i += 1;
                        }
                        proof {
                            assert(values@.take(i as int) =~= values@);
                        }
                    },
                }
                proof {
                    assert(dest@ =~= old(dest)@ + self@.css(minify));
                }
            },
            Property::Custom(custom) => {
                custom.to_css(dest);
            },
        }
    }
}

} // verus!
