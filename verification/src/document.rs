//! From JSON text to a `Json` document. The text is parsed by `serde_json`;
//! what it built is then copied, level by level, into plain data.

use vstd::prelude::*;
use crate::error::AppError;
use crate::json::{Json, JsonNumber, NumberView};
use serde_json::{Number, Value};

verus! {

/// `serde_json::Value`, a parsed JSON value, as a type whose inside is not
/// looked into.
#[verifier::external_type_specification]
#[verifier::external_body]
pub struct ExValue(Value);

/// `serde_json::Number`, the number inside a parsed value, as a type whose
/// inside is not looked into.
#[verifier::external_type_specification]
#[verifier::external_body]
pub struct ExNumber(Number);

/// One level of a parsed value: what kind it is and what it holds.
pub enum Node {
    Null,
    Bool(bool),
    Number(Number),
    Text(String),
    Items(Vec<Value>),
    Members(Vec<(String, Value)>),
}

/// What `serde_json::from_str` makes of a text: the parsed value, or nothing
/// where the text is no JSON document.
pub uninterp spec fn parsed_value(text: Seq<char>) -> Option<Value>;

/// What a parsed value holds at its top level: the variant of
/// `serde_json::Value` with its fields, an object's members in the order in
/// which its map hands them out.
pub uninterp spec fn value_node(value: Value) -> Node;

/// What `serde_json::Number::as_u64` returns.
pub uninterp spec fn number_u64(number: Number) -> Option<u64>;

/// What `serde_json::Number::as_i64` returns.
pub uninterp spec fn number_i64(number: Number) -> Option<i64>;

/// The text that `serde_json::Number` displays as.
pub uninterp spec fn number_text(number: Number) -> Seq<char>;

/// Calls `serde_json::from_str` for a `serde_json::Value`. Claimed: the
/// outcome depends on the text alone, and any error is given up for `None`.
#[verifier::external_body]
fn parse_value(text: &str) -> (parsed: Option<Value>)
    ensures
        parsed == parsed_value(text@),
{
    serde_json::from_str::<Value>(text).ok()
}

/// Takes a `serde_json::Value` apart by its variants, one level deep.
/// Claimed: the result is the value's top level, fields moved, nothing
/// computed.
#[verifier::external_body]
fn open_value(value: Value) -> (node: Node)
    ensures
        node == value_node(value),
{
    match value {
        Value::Null => Node::Null,
        Value::Bool(flag) => Node::Bool(flag),
        Value::Number(number) => Node::Number(number),
        Value::String(text) => Node::Text(text),
        Value::Array(items) => Node::Items(items),
        Value::Object(members) => Node::Members(members.into_iter().collect()),
    }
}

/// Calls `serde_json::Number::as_u64`: the value of a non-negative integer
/// that fits, else `None`.
#[verifier::external_body]
fn number_as_u64(number: &Number) -> (value: Option<u64>)
    ensures
        value == number_u64(*number),
{
    number.as_u64()
}

/// Calls `serde_json::Number::as_i64`: the value of an integer that fits,
/// else `None`.
#[verifier::external_body]
fn number_as_i64(number: &Number) -> (value: Option<i64>)
    ensures
        value == number_i64(*number),
{
    number.as_i64()
}

/// Displays a `serde_json::Number`: its decimal text.
#[verifier::external_body]
fn number_to_text(number: &Number) -> (text: String)
    ensures
        text@ == number_text(*number),
{
    number.to_string()
}

/// The deepest nesting that a document may have.
pub const NESTING_LIMIT: usize = 128;

/// The model of a parsed number: an unsigned integer where it is one, else a
/// signed integer where it is one, else its text.
pub open spec fn number_of(number: Number) -> NumberView {
    match (number_u64(number), number_i64(number)) {
        (Some(n), _) => NumberView::Unsigned(n),
        (None, Some(n)) => NumberView::Signed(n),
        (None, None) => NumberView::Decimal(number_text(number)),
    }
}

/// Whether a parsed value nests its arrays and objects at most `depth` deep.
pub open spec fn fits(value: Value, depth: nat) -> bool
    decreases depth,
{
    match value_node(value) {
        Node::Items(items) => depth > 0 && forall|i: int|
            0 <= i < items@.len() ==> fits(#[trigger] items@[i], (depth - 1) as nat),
        Node::Members(members) => depth > 0 && forall|i: int|
            0 <= i < members@.len() ==> fits((#[trigger] members@[i]).1, (depth - 1) as nat),
        _ => true,
    }
}

/// Whether `json` is the parsed value as plain data: the same kind at every
/// level, the same numbers and texts, the same items and members in the same
/// order.
pub open spec fn mirrors(value: Value, json: Json, depth: nat) -> bool
    decreases depth,
{
    match value_node(value) {
        Node::Null => json is Null,
        Node::Bool(flag) => json == Json::Bool(flag),
        Node::Number(number) => json is Number && json->Number_0@ == number_of(number),
        Node::Text(text) => json is Text && json->Text_0@ == text@,
        Node::Items(items) => {
            &&& depth > 0
            &&& json is Array
            &&& json->Array_0@.len() == items@.len()
            &&& forall|i: int|
                0 <= i < items@.len() ==> mirrors(
                    #[trigger] items@[i],
                    json->Array_0@[i],
                    (depth - 1) as nat,
                )
        },
        Node::Members(members) => {
            &&& depth > 0
            &&& json is Object
            &&& json->Object_0@.len() == members@.len()
            &&& forall|i: int|
                0 <= i < members@.len() ==> {
                    &&& (#[trigger] members@[i]).0@ == json->Object_0@[i].0@
                    &&& mirrors(members@[i].1, json->Object_0@[i].1, (depth - 1) as nat)
                }
        },
    }
}

/// Whether `json` is the document that `text` parses to.
pub open spec fn document_of(text: Seq<char>, json: Json) -> bool {
    parsed_value(text) is Some && mirrors(parsed_value(text).unwrap(), json, NESTING_LIMIT as nat)
}

/// Whether `text` is a JSON document nested no deeper than the limit.
pub open spec fn is_document(text: Seq<char>) -> bool {
    parsed_value(text) is Some && fits(parsed_value(text).unwrap(), NESTING_LIMIT as nat)
}

fn copy_number(number: &Number) -> (copy: JsonNumber)
    ensures
        copy@ == number_of(*number),
{
    match number_as_u64(number) {
        Some(n) => JsonNumber::Unsigned(n),
        None => match number_as_i64(number) {
            Some(n) => JsonNumber::Signed(n),
            None => JsonNumber::Decimal(number_to_text(number)),
        },
    }
}

fn copy_items(items: Vec<Value>, depth: usize) -> (copied: Option<Vec<Json>>)
    requires
        depth > 0,
    ensures
        copied is Some <==> forall|i: int|
            0 <= i < items@.len() ==> fits(#[trigger] items@[i], (depth - 1) as nat),
        copied is Some ==> copied.unwrap()@.len() == items@.len() && forall|i: int|
            0 <= i < items@.len() ==> mirrors(
                #[trigger] items@[i],
                copied.unwrap()@[i],
                (depth - 1) as nat,
            ),
    decreases depth, 0nat,
{
    let ghost all = items@;
    let mut rest = items;
    let mut reversed: Vec<Json> = Vec::new();
    while rest.len() > 0
        invariant
            depth > 0,
            all == items@,
            rest@.len() <= all.len(),
            rest@ == all.subrange(0, rest@.len() as int),
            reversed@.len() == all.len() - rest@.len(),
            forall|k: int|
                rest@.len() <= k < all.len() ==> fits(#[trigger] all[k], (depth - 1) as nat)
                    && mirrors(all[k], reversed@[all.len() - 1 - k], (depth - 1) as nat),
        decreases rest@.len(),
    {
        let ghost at = rest@.len() - 1;
        let value = rest.pop().unwrap();
        assert(value == all[at]);
        match copy_value(value, depth - 1) {
            Some(json) => {
                reversed.push(json);
            },
            None => {
                assert(!fits(items@[at], (depth - 1) as nat));
                return None;
            },
        }
        assert(rest@ =~= all.subrange(0, rest@.len() as int));
    }
    let ghost turned = reversed@;
    let mut copied: Vec<Json> = Vec::new();
    while reversed.len() > 0
        invariant
            reversed@.len() <= turned.len(),
            reversed@ == turned.subrange(0, reversed@.len() as int),
            copied@.len() == turned.len() - reversed@.len(),
            forall|k: int|
                0 <= k < copied@.len() ==> copied@[k] == #[trigger] turned[turned.len() - 1 - k],
        decreases reversed@.len(),
    {
        let json = reversed.pop().unwrap();
        copied.push(json);
        assert(reversed@ =~= turned.subrange(0, reversed@.len() as int));
    }
    assert forall|i: int| 0 <= i < all.len() implies mirrors(
        #[trigger] all[i],
        copied@[i],
        (depth - 1) as nat,
    ) by {
        assert(copied@[i] == turned[turned.len() - 1 - i]);
    }
    Some(copied)
}

fn copy_members(members: Vec<(String, Value)>, depth: usize) -> (copied: Option<
    Vec<(String, Json)>,
>)
    requires
        depth > 0,
    ensures
        copied is Some <==> forall|i: int|
            0 <= i < members@.len() ==> fits((#[trigger] members@[i]).1, (depth - 1) as nat),
        copied is Some ==> copied.unwrap()@.len() == members@.len() && forall|i: int|
            0 <= i < members@.len() ==> {
                &&& (#[trigger] members@[i]).0@ == copied.unwrap()@[i].0@
                &&& mirrors(members@[i].1, copied.unwrap()@[i].1, (depth - 1) as nat)
            },
    decreases depth, 0nat,
{
    let ghost all = members@;
    let mut rest = members;
    let mut reversed: Vec<(String, Json)> = Vec::new();
    while rest.len() > 0
        invariant
            depth > 0,
            all == members@,
            rest@.len() <= all.len(),
            rest@ == all.subrange(0, rest@.len() as int),
            reversed@.len() == all.len() - rest@.len(),
            forall|k: int|
                rest@.len() <= k < all.len() ==> {
                    &&& fits((#[trigger] all[k]).1, (depth - 1) as nat)
                    &&& all[k].0@ == reversed@[all.len() - 1 - k].0@
                    &&& mirrors(all[k].1, reversed@[all.len() - 1 - k].1, (depth - 1) as nat)
                },
        decreases rest@.len(),
    {
        let ghost at = rest@.len() - 1;
        let (name, value) = rest.pop().unwrap();
        assert((name, value) == all[at]);
        match copy_value(value, depth - 1) {
            Some(json) => {
                reversed.push((name, json));
            },
            None => {
                assert(!fits(members@[at].1, (depth - 1) as nat));
                return None;
            },
        }
        assert(rest@ =~= all.subrange(0, rest@.len() as int));
    }
    let ghost turned = reversed@;
    let mut copied: Vec<(String, Json)> = Vec::new();
    while reversed.len() > 0
        invariant
            reversed@.len() <= turned.len(),
            reversed@ == turned.subrange(0, reversed@.len() as int),
            copied@.len() == turned.len() - reversed@.len(),
            forall|k: int|
                0 <= k < copied@.len() ==> copied@[k] == #[trigger] turned[turned.len() - 1 - k],
        decreases reversed@.len(),
    {
        let member = reversed.pop().unwrap();
        copied.push(member);
        assert(reversed@ =~= turned.subrange(0, reversed@.len() as int));
    }
    assert forall|i: int| 0 <= i < all.len() implies {
        &&& (#[trigger] all[i]).0@ == copied@[i].0@
        &&& mirrors(all[i].1, copied@[i].1, (depth - 1) as nat)
    } by {
        assert(copied@[i] == turned[turned.len() - 1 - i]);
    }
    Some(copied)
}

/// Copies a parsed value into plain data, down to `depth` levels of arrays
/// and objects; `None` where it nests deeper.
pub fn copy_value(value: Value, depth: usize) -> (copied: Option<Json>)
    ensures
        copied is Some <==> fits(value, depth as nat),
        copied is Some ==> mirrors(value, copied.unwrap(), depth as nat),
    decreases depth, 1nat,
{
    match open_value(value) {
        Node::Null => Some(Json::Null),
        Node::Bool(flag) => Some(Json::Bool(flag)),
        Node::Number(number) => Some(Json::Number(copy_number(&number))),
        Node::Text(text) => Some(Json::Text(text)),
        Node::Items(items) => {
            if depth == 0 {
                None
            } else {
                match copy_items(items, depth) {
                    Some(copied) => Some(Json::Array(copied)),
                    None => None,
                }
            }
        },
        Node::Members(members) => {
            if depth == 0 {
                None
            } else {
                match copy_members(members, depth) {
                    Some(copied) => Some(Json::Object(copied)),
                    None => None,
                }
            }
        },
    }
}

/// Reads a text as a JSON document. It succeeds exactly on the texts that
/// parse and nest no deeper than the limit.
pub fn parse_document(text: &str) -> (document: Option<Json>)
    ensures
        document is Some <==> is_document(text@),
        document is Some ==> document_of(text@, document.unwrap()),
{
    match parse_value(text) {
        Some(value) => copy_value(value, NESTING_LIMIT),
        None => None,
    }
}

/// Reads a text as a JSON document that is handed on as the provider wrote
/// it. Any text that does not parse is a failure of the provider.
pub fn raw_document(text: &str) -> (outcome: Result<Value, AppError>)
    ensures
        match outcome {
            Ok(value) => parsed_value(text@) == Some(value),
            Err(error) => parsed_value(text@) is None && error is ExternalApi
                && error->ExternalApi_0@ == "error decoding response body"@,
        },
{
    match parse_value(text) {
        Some(value) => Ok(value),
        None => Err(AppError::ExternalApi("error decoding response body".to_owned())),
    }
}

} // verus!
