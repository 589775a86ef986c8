//! How documents and texts are read.

use vstd::prelude::*;

use crate::json::{Json, JsonNumber, JsonView};
use crate::record;
use crate::text;

verus! {

/// An object has, under a name, the value that was last given to it; the value
/// is not touched by members of other names.
pub proof fn later_members_win(
    members: Seq<(Seq<char>, JsonView)>,
    name: Seq<char>,
    value: JsonView,
    other: Seq<char>,
)
    ensures
        JsonView::Object(members.push((name, value))).member(name) == value,
        other != name ==> JsonView::Object(members.push((name, value))).member(other)
            == JsonView::Object(members).member(other),
        JsonView::Object(Seq::empty()).member(name) == JsonView::Null,
{
    record::named_map_push(members, name, value);
}

/// Only objects have members, and each kind of value is read as what it is.
pub proof fn values_are_read_as_what_they_are(value: JsonView, name: Seq<char>)
    ensures
        !(value is Object) ==> value.member(name) == JsonView::Null,
        match value {
            JsonView::Bool(b) => value.as_bool() == Some(b),
            _ => value.as_bool() is None,
        },
        match value {
            JsonView::Text(s) => value.as_text() == Some(s),
            _ => value.as_text() is None,
        },
        match value {
            JsonView::Number(n) => value.as_number() == Some(n),
            _ => value.as_number() is None,
        },
        match value {
            JsonView::Number(JsonNumber::PosInt(n)) => value.as_u64() == Some(n),
            _ => value.as_u64() is None,
        },
{
}

/// A document shows exactly what it is made of.
pub proof fn documents_show_what_they_are(document: Json)
    ensures
        match document {
            Json::Null => document@ == JsonView::Null,
            Json::Bool(b) => document@ == JsonView::Bool(b),
            Json::Number(n) => document@ == JsonView::Number(n),
            Json::Text(s) => document@ == JsonView::Text(s@),
            Json::Array(items) => {
                &&& document@ is Array
                &&& document@->Array_0.len() == items@.len()
                &&& forall|i: int|
                    0 <= i < items@.len() ==> #[trigger] document@->Array_0[i] == items@[i]@
            },
            Json::Object(members) => {
                &&& document@ is Object
                &&& document@->Object_0.len() == members@.len()
                &&& forall|i: int|
                    0 <= i < members@.len() ==> #[trigger] document@->Object_0[i] == (
                        members@[i].0@,
                        members@[i].1@,
                    )
            },
        },
{
    match document {
        Json::Array(items) => {
            crate::json::array_shows(items);
        },
        Json::Object(members) => {
            crate::json::object_shows(members);
        },
        _ => {},
    }
}

/// The number that decimal digits stand for.
pub open spec fn value_of(digits: Seq<char>) -> int
    decreases digits.len(),
{
    if digits.len() == 0 {
        0
    } else {
        10 * value_of(digits.drop_last()) + (digits.last() as int - '0' as int)
    }
}

/// A number in decimal stands for that number, is made of digits alone, and has
/// no leading zero but for zero itself.
pub proof fn decimals_stand_for_their_number(n: nat)
    ensures
        value_of(text::decimal_digits(n)) == n,
        text::decimal_digits(n).len() > 0,
        forall|i: int|
            0 <= i < text::decimal_digits(n).len() ==> '0' <= #[trigger] text::decimal_digits(n)[i]
                <= '9',
        n > 0 ==> text::decimal_digits(n)[0] != '0',
    decreases n,
{
    let digits = text::decimal_digits(n);
    if n < 10 {
        assert(digits.drop_last() =~= Seq::empty());
        reveal_with_fuel(value_of, 2);
    } else {
        decimals_stand_for_their_number(n / 10);
        assert(digits.drop_last() =~= text::decimal_digits(n / 10));
    }
}

/// What is behind a prefix, put behind it again, is the whole; and what is put
/// behind a prefix is found behind it.
pub proof fn prefixes_come_off_as_they_went_on(
    whole: Seq<char>,
    prefix: Seq<char>,
    rest: Seq<char>,
)
    ensures
        text::behind_prefix(whole, prefix) == Some(rest) <==> whole == prefix + rest,
{
    if whole == prefix + rest {
        assert(whole.subrange(0, prefix.len() as int) =~= prefix);
        assert(whole.skip(prefix.len() as int) =~= rest);
    }
    if text::behind_prefix(whole, prefix) == Some(rest) {
        assert(whole =~= prefix + rest);
    }
}

/// A text that is cut has a first piece without the separator; where there are
/// more, the separator and the text of the others follow.
pub proof fn pieces_make_up_the_text(whole: Seq<char>, separator: char)
    ensures
        ({
            let pieces = text::split_pieces(whole, separator);
            &&& pieces.len() >= 1
            &&& !pieces[0].contains(separator)
            &&& pieces.len() == 1 ==> whole == pieces[0]
            &&& pieces.len() > 1 ==> {
                let head = pieces[0].push(separator);
                let rest = whole.skip(head.len() as int);
                &&& head.len() <= whole.len()
                &&& whole == head + rest
                &&& text::split_pieces(rest, separator) == pieces.skip(1)
            }
        }),
    decreases whole.len(),
{
    let pieces = text::split_pieces(whole, separator);
    if whole.len() == 0 {
        assert(whole =~= pieces[0]);
    } else {
        let init = whole.drop_last();
        let before = text::split_pieces(init, separator);
        pieces_make_up_the_text(init, separator);
        if before.len() == 1 {
            if whole.last() == separator {
                assert(pieces[0] == init);
                let head = pieces[0].push(separator);
                let rest = whole.skip(head.len() as int);
                assert(rest =~= Seq::empty());
                assert(whole =~= head + rest);
                assert(pieces.skip(1) =~= seq![Seq::<char>::empty()]);
            } else {
                assert(pieces[0] == init.push(whole.last()));
                assert(whole =~= pieces[0]);
                if pieces[0].contains(separator) {
                    let i = pieces[0].index_of(separator);
                    assert(init[i] == separator);
                }
            }
        } else {
            assert(pieces[0] == before[0]);
            let head = pieces[0].push(separator);
            let rest = whole.skip(head.len() as int);
            let init_rest = init.skip(head.len() as int);
            assert(init == head + init_rest);
            assert forall|i: int| 0 <= i < head.len() implies whole[i] == head[i] by {
                assert(whole[i] == init[i]);
                assert(init[i] == (head + init_rest)[i]);
            }
            assert(whole =~= head + rest);
            assert(rest.drop_last() =~= init_rest);
            assert(rest.last() == whole.last());
            assert(before.skip(1).last() == before.last());
            assert(before.skip(1).drop_last() =~= before.drop_last().skip(1));
            assert(text::split_pieces(rest, separator) =~= pieces.skip(1));
        }
    }
}

/// Named values show each name with its value, in order.
pub proof fn named_values_show_each<T: View>(entries: Seq<(String, T)>, i: int)
    requires
        0 <= i < entries.len(),
    ensures
        record::named_values(entries).len() == entries.len(),
        record::named_values(entries)[i].0 == entries[i].0@,
        record::named_values(entries)[i].1 == entries[i].1@,
{
}

/// In a record too, the value that was last given to a name counts.
pub proof fn later_entries_win<V>(
    entries: Seq<(Seq<char>, V)>,
    name: Seq<char>,
    value: V,
    other: Seq<char>,
)
    ensures
        ({
            let before = record::named_map(entries);
            let now = record::named_map(entries.push((name, value)));
            &&& now.contains_key(name) && now[name] == value
            &&& other != name ==> (now.contains_key(other) <==> before.contains_key(other))
            &&& other != name && before.contains_key(other) ==> now[other] == before[other]
        }),
        record::named_map(Seq::<(Seq<char>, V)>::empty()).dom() == Set::<Seq<char>>::empty(),
{
    record::named_map_push(entries, name, value);
    assert(record::named_map(Seq::<(Seq<char>, V)>::empty()).dom() =~= Set::<Seq<char>>::empty());
}

} // verus!
