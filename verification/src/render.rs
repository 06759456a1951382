//! What the library asks of `std::fmt`: rendering a tuple of string fields
//! into a formatter. The layout of a tuple is stated; what cannot be read
//! back from a formatter or a tuple, and the `Debug` form of a string, have
//! names.

use std::fmt::DebugTuple;
use std::fmt::Formatter;
use vstd::prelude::*;

verus! {

/// `std::fmt::Formatter`: the sink and the flags of one formatting request.
#[verifier::external_type_specification]
#[verifier::external_body]
pub struct ExFormatter<'a>(Formatter<'a>);

/// `std::fmt::Error`: a sink refused what was written to it.
#[verifier::external_type_specification]
#[verifier::external_body]
pub struct ExFmtError(std::fmt::Error);

/// `std::fmt::DebugTuple`: a tuple that is being rendered, field by field.
#[verifier::external_type_specification]
#[verifier::external_body]
pub struct ExDebugTuple<'a, 'b: 'a>(DebugTuple<'a, 'b>);

/// The text that the sink behind a formatter has taken so far, through this
/// formatter or before it.
pub uninterp spec fn sink_text(f: Formatter<'_>) -> Seq<char>;

/// Whether a formatter asks for the alternate layout, as `{:#?}` does.
pub uninterp spec fn alternate(f: Formatter<'_>) -> bool;

/// The `Debug` form of a string slice: the text between double quotes, with
/// escapes where std makes them, line breaks among them, so that the form
/// stays on one line.
pub uninterp spec fn str_debug(text: Seq<char>) -> Seq<char>;

/// Rendered fields in the plain layout: one after the other, with a comma
/// and a space between them.
pub open spec fn plain_fields(fields: Seq<Seq<char>>) -> Seq<char>
    decreases fields.len(),
{
    if fields.len() == 0 {
        Seq::empty()
    } else if fields.len() == 1 {
        fields.last()
    } else {
        plain_fields(fields.drop_last()) + seq![',', ' '] + fields.last()
    }
}

/// Rendered fields in the alternate layout: each on a line of its own,
/// behind four spaces and before a comma.
pub open spec fn alternate_fields(fields: Seq<Seq<char>>) -> Seq<char>
    decreases fields.len(),
{
    if fields.len() == 0 {
        Seq::empty()
    } else {
        alternate_fields(fields.drop_last()) + seq![' ', ' ', ' ', ' '] + fields.last() + seq![
            ',',
            '\n',
        ]
    }
}

/// The text of a whole tuple as `std::fmt::DebugTuple` lays it out, from its
/// name and its fields as they are rendered, each on one line. Without
/// fields it is the name alone. With fields they stand between round
/// brackets behind the name; a single field without a name is followed by a
/// comma in the plain layout.
pub open spec fn tuple_text(name: Seq<char>, fields: Seq<Seq<char>>, alternate: bool) -> Seq<
    char,
> {
    if fields.len() == 0 {
        name
    } else if alternate {
        name + seq!['(', '\n'] + alternate_fields(fields) + seq![')']
    } else if name.len() == 0 && fields.len() == 1 {
        seq!['('] + fields.last() + seq![',', ')']
    } else {
        name + seq!['('] + plain_fields(fields) + seq![')']
    }
}

/// The name that a tuple was begun under.
pub uninterp spec fn tuple_name(tuple: DebugTuple<'_, '_>) -> Seq<char>;

/// The fields that a tuple has been given, in order, each as it is rendered.
pub uninterp spec fn tuple_fields(tuple: DebugTuple<'_, '_>) -> Seq<Seq<char>>;

/// Whether a tuple is rendered in the alternate layout.
pub uninterp spec fn tuple_alternate(tuple: DebugTuple<'_, '_>) -> bool;

/// The text that the sink of a tuple's formatter had taken when the tuple was
/// begun.
pub uninterp spec fn tuple_before(tuple: DebugTuple<'_, '_>) -> Seq<char>;

/// The text that the sink of a tuple's formatter has taken when the tuple lets
/// go of the formatter.
pub uninterp spec fn tuple_after(tuple: DebugTuple<'_, '_>) -> Seq<char>;

/// `Formatter::debug_tuple`: begins the rendering of a tuple under `name`,
/// with no field yet, after what the formatter has taken and in the layout it
/// asks for. The tuple holds the formatter until it is dropped; only then is
/// the formatter's text known, and it is what the tuple leaves.
#[verifier::external_body]
pub(crate) fn begin_tuple<'a, 'b>(f: &'a mut Formatter<'b>, name: &str) -> (tuple: DebugTuple<
    'a,
    'b,
>)
    ensures
        tuple_name(tuple) == name@,
        tuple_fields(tuple) == Seq::<Seq<char>>::empty(),
        tuple_alternate(tuple) == alternate(*old(f)),
        tuple_before(tuple) == sink_text(*old(f)),
        tuple_after(tuple) == sink_text(*final(f)),
        alternate(*final(f)) == alternate(*old(f)),
{
    f.debug_tuple(name)
}

/// `DebugTuple::field`: adds `value` as the next field, rendered in its
/// `Debug` form. Everything else of the tuple stays as it is.
#[verifier::external_body]
pub(crate) fn add_field(tuple: &mut DebugTuple<'_, '_>, value: &str)
    ensures
        tuple_name(*final(tuple)) == tuple_name(*old(tuple)),
        tuple_fields(*final(tuple)) == tuple_fields(*old(tuple)).push(str_debug(value@)),
        tuple_alternate(*final(tuple)) == tuple_alternate(*old(tuple)),
        tuple_before(*final(tuple)) == tuple_before(*old(tuple)),
        tuple_after(*final(tuple)) == tuple_after(*old(tuple)),
{
    tuple.field(&value);
}

/// `DebugTuple::finish`: closes the tuple and tells whether the sink took all
/// of it. The tuple is given up here, so nothing more is written through it.
/// If the sink took all, it holds what it held before and then the text of
/// the whole tuple. If it refused a write, nothing was written after that:
/// it holds what it held before and then a beginning of that text.
#[verifier::external_body]
pub(crate) fn finish_tuple(tuple: DebugTuple<'_, '_>) -> (written: std::fmt::Result)
    ensures
        written is Ok ==> tuple_after(tuple) == tuple_before(tuple) + tuple_text(
            tuple_name(tuple),
            tuple_fields(tuple),
            tuple_alternate(tuple),
        ),
        written is Err ==> exists|taken: Seq<char>|
            #![trigger tuple_before(tuple) + taken]
            tuple_after(tuple) == tuple_before(tuple) + taken && taken.is_prefix_of(
                tuple_text(tuple_name(tuple), tuple_fields(tuple), tuple_alternate(tuple)),
            ),
{
    let mut tuple = tuple;
    tuple.finish()
}

} // verus!
