//! Two copies of one parsed value decode to the same thing: what a document
//! means depends on what it holds, never on where its texts are stored.

use vstd::prelude::*;
use crate::decode::{
    entries_in, entries_of, entry_of, listed_entry_of, optional_entry, optional_i32,
    optional_number, optional_text, optional_u32, present, required_i32, required_text,
    required_u32, screenshot_of, screenshots_in, screenshots_of, wrapped_entry_of,
};
use crate::document::{document_of, mirrors, value_node, Node};
use crate::json::{lookup, Json};
use crate::rawg::{response_of, result_of, results_in, results_of};
use serde_json::Value;

verus! {

/// Whether two documents hold the same: the same kind at every level, the
/// same numbers and texts, the same items and members in the same order,
/// down to `depth` levels of arrays and objects.
pub open spec fn alike(a: Json, b: Json, depth: nat) -> bool
    decreases depth,
{
    match a {
        Json::Null => b is Null,
        Json::Bool(flag) => b == Json::Bool(flag),
        Json::Number(number) => b is Number && b->Number_0@ == number@,
        Json::Text(text) => b is Text && b->Text_0@ == text@,
        Json::Array(items) => {
            &&& depth > 0
            &&& b is Array
            &&& b->Array_0@.len() == items@.len()
            &&& forall|i: int|
                0 <= i < items@.len() ==> alike(
                    #[trigger] items@[i],
                    b->Array_0@[i],
                    (depth - 1) as nat,
                )
        },
        Json::Object(members) => {
            &&& depth > 0
            &&& b is Object
            &&& b->Object_0@.len() == members@.len()
            &&& forall|i: int|
                0 <= i < members@.len() ==> {
                    &&& (#[trigger] members@[i]).0@ == b->Object_0@[i].0@
                    &&& alike(members@[i].1, b->Object_0@[i].1, (depth - 1) as nat)
                }
        },
    }
}

/// Two copies of one parsed value hold the same.
pub proof fn copies_are_alike(value: Value, a: Json, b: Json, depth: nat)
    requires
        mirrors(value, a, depth),
        mirrors(value, b, depth),
    ensures
        alike(a, b, depth),
    decreases depth,
{
    match value_node(value) {
        Node::Items(items) => {
            assert forall|i: int| 0 <= i < a->Array_0@.len() implies alike(
                #[trigger] a->Array_0@[i],
                b->Array_0@[i],
                (depth - 1) as nat,
            ) by {
                assert(mirrors(items@[i], a->Array_0@[i], (depth - 1) as nat));
                assert(mirrors(items@[i], b->Array_0@[i], (depth - 1) as nat));
                copies_are_alike(items@[i], a->Array_0@[i], b->Array_0@[i], (depth - 1) as nat);
            }
        },
        Node::Members(members) => {
            assert forall|i: int| 0 <= i < a->Object_0@.len() implies {
                &&& (#[trigger] a->Object_0@[i]).0@ == b->Object_0@[i].0@
                &&& alike(a->Object_0@[i].1, b->Object_0@[i].1, (depth - 1) as nat)
            } by {
                assert(members@[i].0@ == a->Object_0@[i].0@);
                assert(members@[i].0@ == b->Object_0@[i].0@);
                copies_are_alike(
                    members@[i].1,
                    a->Object_0@[i].1,
                    b->Object_0@[i].1,
                    (depth - 1) as nat,
                );
            }
        },
        _ => {},
    }
}

proof fn lookup_agrees(
    a: Seq<(String, Json)>,
    b: Seq<(String, Json)>,
    key: Seq<char>,
    from: int,
    depth: nat,
)
    requires
        0 <= from,
        a.len() == b.len(),
        forall|i: int|
            0 <= i < a.len() ==> (#[trigger] a[i]).0@ == b[i].0@ && alike(a[i].1, b[i].1, depth),
    ensures
        lookup(a, key, from) is None <==> lookup(b, key, from) is None,
        lookup(a, key, from) is Some ==> alike(
            lookup(a, key, from).unwrap(),
            lookup(b, key, from).unwrap(),
            depth,
        ),
    decreases a.len() - from,
{
    if from < a.len() {
        assert(a[from].0@ == b[from].0@);
        if a[from].0@ != key {
            lookup_agrees(a, b, key, from + 1, depth);
        }
    }
}

/// Documents that hold the same have the same members.
pub proof fn members_agree(a: Json, b: Json, key: Seq<char>, depth: nat)
    requires
        alike(a, b, depth),
    ensures
        a.member(key) is None <==> b.member(key) is None,
        a.member(key) is Some ==> depth > 0 && alike(
            a.member(key).unwrap(),
            b.member(key).unwrap(),
            (depth - 1) as nat,
        ),
{
    match a {
        Json::Object(members) => {
            lookup_agrees(members@, b->Object_0@, key, 0, (depth - 1) as nat);
        },
        _ => {},
    }
}

/// Documents that hold the same read as the same number, the same text and
/// the same kind.
pub proof fn values_agree(a: Json, b: Json, depth: nat)
    requires
        alike(a, b, depth),
    ensures
        a.as_u32() == b.as_u32(),
        a.as_i32() == b.as_i32(),
        a.as_text() == b.as_text(),
        a.as_number() == b.as_number(),
        a is Null <==> b is Null,
        a is Array <==> b is Array,
        a is Array ==> depth > 0 && a->Array_0@.len() == b->Array_0@.len() && forall|i: int|
            0 <= i < a->Array_0@.len() ==> alike(
                #[trigger] a->Array_0@[i],
                b->Array_0@[i],
                (depth - 1) as nat,
            ),
{
}

/// Documents that hold the same give the same for every plain member that
/// the decoders read, under any name.
pub proof fn fields_agree(a: Json, b: Json, key: Seq<char>, depth: nat)
    requires
        alike(a, b, depth),
    ensures
        required_u32(a, key) == required_u32(b, key),
        required_i32(a, key) == required_i32(b, key),
        required_text(a, key) == required_text(b, key),
        optional_u32(a, key) == optional_u32(b, key),
        optional_i32(a, key) == optional_i32(b, key),
        optional_text(a, key) == optional_text(b, key),
        optional_number(a, key) == optional_number(b, key),
        present(a, key) is None <==> present(b, key) is None,
{
    members_agree(a, b, key, depth);
    if a.member(key) is Some {
        values_agree(a.member(key).unwrap(), b.member(key).unwrap(), (depth - 1) as nat);
    }
}

/// Documents that hold the same decode to the same entry and the same
/// screenshot.
pub proof fn entries_agree(a: Json, b: Json, depth: nat)
    requires
        alike(a, b, depth),
    ensures
        entry_of(a) == entry_of(b),
        screenshot_of(a) == screenshot_of(b),
        wrapped_entry_of(a) == wrapped_entry_of(b),
        forall|wrapped: bool| listed_entry_of(a, wrapped) == listed_entry_of(b, wrapped),
{
    fields_agree(a, b, "id"@, depth);
    fields_agree(a, b, "name"@, depth);
    fields_agree(a, b, "slug"@, depth);
    fields_agree(a, b, "image"@, depth);
    members_agree(a, b, "platform"@, depth);
    if a.member("platform"@) is Some {
        let x = a.member("platform"@).unwrap();
        let y = b.member("platform"@).unwrap();
        fields_agree(x, y, "id"@, (depth - 1) as nat);
        fields_agree(x, y, "name"@, (depth - 1) as nat);
        fields_agree(x, y, "slug"@, (depth - 1) as nat);
    }
}

/// Documents that hold the same give the same lists and the same optional
/// entry under any name.
pub proof fn lists_agree(a: Json, b: Json, key: Seq<char>, depth: nat)
    requires
        alike(a, b, depth),
    ensures
        optional_entry(a, key) == optional_entry(b, key),
        screenshots_of(a, key) == screenshots_of(b, key),
        forall|wrapped: bool| entries_of(a, key, wrapped) == entries_of(b, key, wrapped),
{
    members_agree(a, b, key, depth);
    if a.member(key) is Some {
        let x = a.member(key).unwrap();
        let y = b.member(key).unwrap();
        let below = (depth - 1) as nat;
        values_agree(x, y, below);
        entries_agree(x, y, below);
        if x is Array {
            let xs = x->Array_0@;
            let ys = y->Array_0@;
            assert forall|i: int| 0 <= i < xs.len() implies screenshot_of(xs[i]) == screenshot_of(
                ys[i],
            ) && (forall|wrapped: bool|
                listed_entry_of(xs[i], wrapped) == listed_entry_of(ys[i], wrapped)) by {
                assert(alike(xs[i], ys[i], (below - 1) as nat));
                entries_agree(xs[i], ys[i], (below - 1) as nat);
            }
            assert forall|wrapped: bool| entries_in(xs, wrapped) == entries_in(ys, wrapped) by {
                if entries_in(xs, wrapped) is Some {
                    assert forall|i: int| 0 <= i < ys.len() implies (#[trigger] listed_entry_of(
                        ys[i],
                        wrapped,
                    )) is Some by {
                        assert(listed_entry_of(xs[i], wrapped) is Some);
                    }
                    assert(entries_in(xs, wrapped).unwrap() =~= entries_in(ys, wrapped).unwrap());
                } else {
                    let i = choose|i: int|
                        0 <= i < xs.len() && !(#[trigger] listed_entry_of(xs[i], wrapped) is Some);
                    assert(listed_entry_of(ys[i], wrapped) is None);
                }
            }
            if screenshots_in(xs) is Some {
                assert forall|i: int| 0 <= i < ys.len() implies (#[trigger] screenshot_of(
                    ys[i],
                )) is Some by {
                    assert(screenshot_of(xs[i]) is Some);
                }
                assert(screenshots_in(xs).unwrap() =~= screenshots_in(ys).unwrap());
            } else {
                let i = choose|i: int|
                    0 <= i < xs.len() && !(#[trigger] screenshot_of(xs[i]) is Some);
                assert(screenshot_of(ys[i]) is None);
            }
        }
    }
}

/// Game records that hold the same normalize to the same record.
pub proof fn records_agree(a: Json, b: Json, depth: nat)
    requires
        alike(a, b, depth),
    ensures
        result_of(a) == result_of(b),
{
    fields_agree(a, b, "id"@, depth);
    fields_agree(a, b, "name"@, depth);
    fields_agree(a, b, "background_image"@, depth);
    fields_agree(a, b, "released"@, depth);
    fields_agree(a, b, "rating"@, depth);
    fields_agree(a, b, "slug"@, depth);
    fields_agree(a, b, "metacritic"@, depth);
    fields_agree(a, b, "rating_top"@, depth);
    fields_agree(a, b, "playtime"@, depth);
    lists_agree(a, b, "genres"@, depth);
    lists_agree(a, b, "platforms"@, depth);
    lists_agree(a, b, "esrb_rating"@, depth);
    lists_agree(a, b, "tags"@, depth);
    lists_agree(a, b, "short_screenshots"@, depth);
}

/// Listing documents that hold the same decode to the same page, whatever
/// page is asked for.
pub proof fn listings_agree(a: Json, b: Json, page: u32, depth: nat)
    requires
        alike(a, b, depth),
    ensures
        response_of(a, page) == response_of(b, page),
{
    fields_agree(a, b, "count"@, depth);
    fields_agree(a, b, "next"@, depth);
    fields_agree(a, b, "previous"@, depth);
    members_agree(a, b, "results"@, depth);
    if a.member("results"@) is Some {
        let x = a.member("results"@).unwrap();
        let y = b.member("results"@).unwrap();
        let below = (depth - 1) as nat;
        values_agree(x, y, below);
        if x is Array {
            let xs = x->Array_0@;
            let ys = y->Array_0@;
            assert forall|i: int| 0 <= i < xs.len() implies result_of(xs[i]) == result_of(
                ys[i],
            ) by {
                assert(alike(xs[i], ys[i], (below - 1) as nat));
                records_agree(xs[i], ys[i], (below - 1) as nat);
            }
            if results_in(xs) is Some {
                assert forall|i: int| 0 <= i < ys.len() implies (#[trigger] result_of(ys[i]))
                    is Some by {
                    assert(result_of(xs[i]) is Some);
                }
                assert(results_in(xs).unwrap() =~= results_in(ys).unwrap());
            } else {
                let i = choose|i: int| 0 <= i < xs.len() && !(#[trigger] result_of(xs[i]) is Some);
                assert(result_of(ys[i]) is None);
            }
            assert(results_of(a) == results_of(b));
        }
    }
}

/// What a text decodes to is one thing: any two documents of the same text
/// decode to the same page.
pub proof fn decoding_is_determined(text: Seq<char>, a: Json, b: Json, page: u32)
    requires
        document_of(text, a),
        document_of(text, b),
    ensures
        response_of(a, page) == response_of(b, page),
{
    let value = crate::document::parsed_value(text).unwrap();
    copies_are_alike(value, a, b, crate::document::NESTING_LIMIT as nat);
    listings_agree(a, b, page, crate::document::NESTING_LIMIT as nat);
}

} // verus!
