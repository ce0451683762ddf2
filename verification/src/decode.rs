//! Readers for the members of a provider object: which members may be
//! missing, which may be null, and what counts as a mismatch.

use vstd::prelude::*;
use crate::json::{Json, JsonNumber, NumberView};
use crate::models::{text_view, Entry, Labeled, Screenshot, ScreenshotView, labeled_all, screenshots_all};

verus! {

/// The member named `key`, unless it is missing or null.
pub open spec fn present(obj: Json, key: Seq<char>) -> Option<Json> {
    match obj.member(key) {
        Some(Json::Null) => None,
        other => other,
    }
}

/// A text that must be there. `None` is a failure.
pub open spec fn required_text(obj: Json, key: Seq<char>) -> Option<Seq<char>> {
    match obj.member(key) {
        Some(value) => value.as_text(),
        None => None,
    }
}

/// An unsigned integer that must be there. `None` is a failure.
pub open spec fn required_u32(obj: Json, key: Seq<char>) -> Option<u32> {
    match obj.member(key) {
        Some(value) => value.as_u32(),
        None => None,
    }
}

/// A signed integer that must be there. `None` is a failure.
pub open spec fn required_i32(obj: Json, key: Seq<char>) -> Option<i32> {
    match obj.member(key) {
        Some(value) => value.as_i32(),
        None => None,
    }
}

/// A text that may be missing or null. The outer `None` is a failure: the
/// member is there and is no text.
pub open spec fn optional_text(obj: Json, key: Seq<char>) -> Option<Option<Seq<char>>> {
    match present(obj, key) {
        None => Some(None),
        Some(value) => match value.as_text() {
            Some(text) => Some(Some(text)),
            None => None,
        },
    }
}

/// An unsigned integer that may be missing or null.
pub open spec fn optional_u32(obj: Json, key: Seq<char>) -> Option<Option<u32>> {
    match present(obj, key) {
        None => Some(None),
        Some(value) => match value.as_u32() {
            Some(n) => Some(Some(n)),
            None => None,
        },
    }
}

/// A signed integer that may be missing or null.
pub open spec fn optional_i32(obj: Json, key: Seq<char>) -> Option<Option<i32>> {
    match present(obj, key) {
        None => Some(None),
        Some(value) => match value.as_i32() {
            Some(n) => Some(Some(n)),
            None => None,
        },
    }
}

/// A number of any form that may be missing or null.
pub open spec fn optional_number(obj: Json, key: Seq<char>) -> Option<Option<NumberView>> {
    match present(obj, key) {
        None => Some(None),
        Some(value) => match value.as_number() {
            Some(n) => Some(Some(n)),
            None => None,
        },
    }
}

/// An entry: an object with an integer `id`, a text `name` and a text `slug`.
pub open spec fn entry_of(item: Json) -> Option<Labeled> {
    match (required_i32(item, "id"@), required_text(item, "name"@), required_text(item, "slug"@)) {
        (Some(id), Some(name), Some(slug)) => Some(Labeled { id: id as int, name, slug }),
        _ => None,
    }
}

/// An entry that may be missing or null.
pub open spec fn optional_entry(obj: Json, key: Seq<char>) -> Option<Option<Labeled>> {
    match present(obj, key) {
        None => Some(None),
        Some(value) => match entry_of(value) {
            Some(entry) => Some(Some(entry)),
            None => None,
        },
    }
}

/// An entry held under the member `platform` of its item.
pub open spec fn wrapped_entry_of(item: Json) -> Option<Labeled> {
    match item.member("platform"@) {
        Some(inner) => entry_of(inner),
        None => None,
    }
}

/// An item of a list of entries, bare or wrapped.
pub open spec fn listed_entry_of(item: Json, wrapped: bool) -> Option<Labeled> {
    if wrapped {
        wrapped_entry_of(item)
    } else {
        entry_of(item)
    }
}

/// A screenshot: an object with an integer `id` and a text `image`.
pub open spec fn screenshot_of(item: Json) -> Option<ScreenshotView> {
    match (required_i32(item, "id"@), required_text(item, "image"@)) {
        (Some(id), Some(image)) => Some(ScreenshotView { id: id as int, image_url: image }),
        _ => None,
    }
}

/// Every item of a list of entries decoded, in order; a failure if any item
/// fails.
pub open spec fn entries_in(items: Seq<Json>, wrapped: bool) -> Option<Seq<Labeled>> {
    if forall|i: int| 0 <= i < items.len() ==> (#[trigger] listed_entry_of(items[i], wrapped))
        is Some {
        Some(Seq::new(items.len(), |i: int| listed_entry_of(items[i], wrapped).unwrap()))
    } else {
        None
    }
}

/// Every item of a list of screenshots decoded, in order; a failure if any
/// item fails.
pub open spec fn screenshots_in(items: Seq<Json>) -> Option<Seq<ScreenshotView>> {
    if forall|i: int| 0 <= i < items.len() ==> (#[trigger] screenshot_of(items[i])) is Some {
        Some(Seq::new(items.len(), |i: int| screenshot_of(items[i]).unwrap()))
    } else {
        None
    }
}

/// The list of entries under `key`, which may be missing: the field is then
/// absent. The outer `None` is a failure: the member is there and is null,
/// or no array, or holds an item that does not decode.
pub open spec fn entries_of(obj: Json, key: Seq<char>, wrapped: bool) -> Option<
    Option<Seq<Labeled>>,
> {
    match obj.member(key) {
        None => Some(None),
        Some(Json::Array(items)) => match entries_in(items@, wrapped) {
            Some(list) => Some(Some(list)),
            None => None,
        },
        Some(_) => None,
    }
}

/// The list of screenshots under `key`, which may be missing: the field is
/// then absent. The outer `None` is a failure: the member is there and is
/// null, or no array, or holds an item that does not decode.
pub open spec fn screenshots_of(obj: Json, key: Seq<char>) -> Option<Option<Seq<ScreenshotView>>> {
    match obj.member(key) {
        None => Some(None),
        Some(Json::Array(items)) => match screenshots_in(items@) {
            Some(list) => Some(Some(list)),
            None => None,
        },
        Some(_) => None,
    }
}

pub fn read_present<'a>(obj: &'a Json, key: &str) -> (found: Option<&'a Json>)
    ensures
        match found {
            Some(value) => present(*obj, key@) == Some(*value),
            None => present(*obj, key@) is None,
        },
{
    match obj.field(key) {
        Some(Json::Null) => None,
        other => other,
    }
}

pub fn read_required_text(obj: &Json, key: &str) -> (found: Option<String>)
    ensures
        match found {
            Some(text) => required_text(*obj, key@) == Some(text@),
            None => required_text(*obj, key@) is None,
        },
{
    match obj.field(key) {
        Some(value) => value.to_text(),
        None => None,
    }
}

pub fn read_required_u32(obj: &Json, key: &str) -> (found: Option<u32>)
    ensures
        found == required_u32(*obj, key@),
{
    match obj.field(key) {
        Some(value) => value.to_u32(),
        None => None,
    }
}

pub fn read_required_i32(obj: &Json, key: &str) -> (found: Option<i32>)
    ensures
        found == required_i32(*obj, key@),
{
    match obj.field(key) {
        Some(value) => value.to_i32(),
        None => None,
    }
}

pub fn read_optional_text(obj: &Json, key: &str) -> (found: Option<Option<String>>)
    ensures
        match found {
            Some(text) => optional_text(*obj, key@) == Some(text_view(text)),
            None => optional_text(*obj, key@) is None,
        },
{
    match read_present(obj, key) {
        None => Some(None),
        Some(value) => match value.to_text() {
            Some(text) => Some(Some(text)),
            None => None,
        },
    }
}

pub fn read_optional_u32(obj: &Json, key: &str) -> (found: Option<Option<u32>>)
    ensures
        found == optional_u32(*obj, key@),
{
    match read_present(obj, key) {
        None => Some(None),
        Some(value) => match value.to_u32() {
            Some(n) => Some(Some(n)),
            None => None,
        },
    }
}

pub fn read_optional_i32(obj: &Json, key: &str) -> (found: Option<Option<i32>>)
    ensures
        found == optional_i32(*obj, key@),
{
    match read_present(obj, key) {
        None => Some(None),
        Some(value) => match value.to_i32() {
            Some(n) => Some(Some(n)),
            None => None,
        },
    }
}

pub fn read_optional_number(obj: &Json, key: &str) -> (found: Option<Option<JsonNumber>>)
    ensures
        match found {
            Some(Some(n)) => optional_number(*obj, key@) == Some(Some(n@)),
            Some(None) => optional_number(*obj, key@) == Some(None::<NumberView>),
            None => optional_number(*obj, key@) is None,
        },
{
    match read_present(obj, key) {
        None => Some(None),
        Some(value) => match value.to_number() {
            Some(n) => Some(Some(n)),
            None => None,
        },
    }
}

pub fn read_entry<T: Entry>(item: &Json) -> (found: Option<T>)
    ensures
        match found {
            Some(entry) => entry_of(*item) == Some(entry.labeled()),
            None => entry_of(*item) is None,
        },
{
    let id = read_required_i32(item, "id");
    let name = read_required_text(item, "name");
    let slug = read_required_text(item, "slug");
    match (id, name, slug) {
        (Some(id), Some(name), Some(slug)) => Some(T::assemble(id, name, slug)),
        _ => None,
    }
}

pub fn read_optional_entry<T: Entry>(obj: &Json, key: &str) -> (found: Option<Option<T>>)
    ensures
        match found {
            Some(Some(entry)) => optional_entry(*obj, key@) == Some(Some(entry.labeled())),
            Some(None) => optional_entry(*obj, key@) == Some(None::<Labeled>),
            None => optional_entry(*obj, key@) is None,
        },
{
    match read_present(obj, key) {
        None => Some(None),
        Some(value) => match read_entry::<T>(value) {
            Some(entry) => Some(Some(entry)),
            None => None,
        },
    }
}

pub fn read_listed_entry<T: Entry>(item: &Json, wrapped: bool) -> (found: Option<T>)
    ensures
        match found {
            Some(entry) => listed_entry_of(*item, wrapped) == Some(entry.labeled()),
            None => listed_entry_of(*item, wrapped) is None,
        },
{
    if wrapped {
        match item.field("platform") {
            Some(inner) => read_entry::<T>(inner),
            None => None,
        }
    } else {
        read_entry::<T>(item)
    }
}

pub fn read_screenshot(item: &Json) -> (found: Option<Screenshot>)
    ensures
        match found {
            Some(shot) => screenshot_of(*item) == Some(shot@),
            None => screenshot_of(*item) is None,
        },
{
    let id = read_required_i32(item, "id");
    let image = read_required_text(item, "image");
    match (id, image) {
        (Some(id), Some(image)) => Some(Screenshot { id, image_url: image }),
        _ => None,
    }
}

pub fn read_entries<T: Entry>(obj: &Json, key: &str, wrapped: bool) -> (found: Option<
    Option<Vec<T>>,
>)
    ensures
        match found {
            Some(Some(list)) => entries_of(*obj, key@, wrapped) == Some(Some(labeled_all(list@))),
            Some(None) => entries_of(*obj, key@, wrapped) == Some(None::<Seq<Labeled>>),
            None => entries_of(*obj, key@, wrapped) is None,
        },
{
    match obj.field(key) {
        None => Some(None),
        Some(Json::Array(items)) => {
            let mut list: Vec<T> = Vec::new();
            let mut i: usize = 0;
            while i < items.len()
                invariant
                    i <= items.len(),
                    list@.len() == i,
                    obj.member(key@) == Some(Json::Array(*items)),
                    forall|k: int|
                        0 <= k < i ==> (#[trigger] listed_entry_of(items@[k], wrapped)) == Some(
                            list@[k].labeled(),
                        ),
                decreases items.len() - i,
            {
                match read_listed_entry::<T>(&items[i], wrapped) {
                    Some(entry) => {
                        list.push(entry);
                    },
                    None => {
                        assert(listed_entry_of(items@[i as int], wrapped) is None);
                        assert(entries_in(items@, wrapped) is None);
                        return None;
                    },
                }
                i += 1;
            }
            assert(labeled_all(list@) =~= entries_in(items@, wrapped).unwrap());
            Some(Some(list))
        },
        Some(_) => None,
    }
}

pub fn read_screenshots(obj: &Json, key: &str) -> (found: Option<Option<Vec<Screenshot>>>)
    ensures
        match found {
            Some(Some(list)) => screenshots_of(*obj, key@) == Some(Some(screenshots_all(list@))),
            Some(None) => screenshots_of(*obj, key@) == Some(None::<Seq<ScreenshotView>>),
            None => screenshots_of(*obj, key@) is None,
        },
{
    match obj.field(key) {
        None => Some(None),
        Some(Json::Array(items)) => {
            let mut list: Vec<Screenshot> = Vec::new();
            let mut i: usize = 0;
            while i < items.len()
                invariant
                    i <= items.len(),
                    list@.len() == i,
                    obj.member(key@) == Some(Json::Array(*items)),
                    forall|k: int|
                        0 <= k < i ==> (#[trigger] screenshot_of(items@[k])) == Some(list@[k]@),
                decreases items.len() - i,
            {
                match read_screenshot(&items[i]) {
                    Some(shot) => {
                        list.push(shot);
                    },
                    None => {
                        assert(screenshot_of(items@[i as int]) is None);
                        assert(screenshots_in(items@) is None);
                        return None;
                    },
                }
                i += 1;
            }
            assert(screenshots_all(list@) =~= screenshots_in(items@).unwrap());
            Some(Some(list))
        },
        Some(_) => None,
    }
}

} // verus!
