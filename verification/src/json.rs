//! A JSON document as plain data, and the readers that the decoders share.

use vstd::prelude::*;

verus! {

/// A JSON number. Integers keep their value; any other number keeps its
/// decimal text.
#[derive(Debug)]
pub enum JsonNumber {
    Unsigned(u64),
    Signed(i64),
    Decimal(String),
}

/// A JSON document. An object keeps its members in order, as pairs.
#[derive(Debug)]
pub enum Json {
    Null,
    Bool(bool),
    Number(JsonNumber),
    Text(String),
    Array(Vec<Json>),
    Object(Vec<(String, Json)>),
}

/// The model of a number: its value, or its text.
pub enum NumberView {
    Unsigned(u64),
    Signed(i64),
    Decimal(Seq<char>),
}

impl View for JsonNumber {
    type V = NumberView;

    open spec fn view(&self) -> NumberView {
        match *self {
            JsonNumber::Unsigned(n) => NumberView::Unsigned(n),
            JsonNumber::Signed(n) => NumberView::Signed(n),
            JsonNumber::Decimal(text) => NumberView::Decimal(text@),
        }
    }
}

impl Clone for JsonNumber {
    fn clone(&self) -> (copy: JsonNumber)
        ensures
            copy@ == self@,
    {
        match self {
            JsonNumber::Unsigned(n) => JsonNumber::Unsigned(*n),
            JsonNumber::Signed(n) => JsonNumber::Signed(*n),
            JsonNumber::Decimal(text) => JsonNumber::Decimal(text.clone()),
        }
    }
}

/// The first member named `key` at or after position `from`.
pub open spec fn lookup(members: Seq<(String, Json)>, key: Seq<char>, from: int) -> Option<Json>
    decreases members.len() - from,
{
    if from < 0 || from >= members.len() {
        None
    } else if members[from].0@ == key {
        Some(members[from].1)
    } else {
        lookup(members, key, from + 1)
    }
}

impl Json {
    /// The member named `key` of an object: the first, should the name occur
    /// twice. Nothing for a missing member and for any value but an object.
    pub open spec fn member(self, key: Seq<char>) -> Option<Json> {
        match self {
            Json::Object(members) => lookup(members@, key, 0),
            _ => None,
        }
    }

    /// The value as an unsigned 32-bit integer, where it is one.
    pub open spec fn as_u32(self) -> Option<u32> {
        match self {
            Json::Number(JsonNumber::Unsigned(n)) => if n <= u32::MAX {
                Some(n as u32)
            } else {
                None
            },
            Json::Number(JsonNumber::Signed(n)) => if 0 <= n <= u32::MAX {
                Some(n as u32)
            } else {
                None
            },
            _ => None,
        }
    }

    /// The value as a signed 32-bit integer, where it is one.
    pub open spec fn as_i32(self) -> Option<i32> {
        match self {
            Json::Number(JsonNumber::Unsigned(n)) => if n <= i32::MAX {
                Some(n as i32)
            } else {
                None
            },
            Json::Number(JsonNumber::Signed(n)) => if i32::MIN <= n <= i32::MAX {
                Some(n as i32)
            } else {
                None
            },
            _ => None,
        }
    }

    /// The value as a text, where it is one.
    pub open spec fn as_text(self) -> Option<Seq<char>> {
        match self {
            Json::Text(text) => Some(text@),
            _ => None,
        }
    }

    /// The value as a number of any form, where it is one.
    pub open spec fn as_number(self) -> Option<NumberView> {
        match self {
            Json::Number(n) => Some(n@),
            _ => None,
        }
    }

    pub fn field(&self, key: &str) -> (found: Option<&Json>)
        ensures
            match found {
                Some(value) => self.member(key@) == Some(*value),
                None => self.member(key@) is None,
            },
    {
        match self {
            Json::Object(members) => {
                let wanted = key.to_owned();
                let mut i: usize = 0;
                while i < members.len()
                    invariant
                        i <= members.len(),
                        wanted@ == key@,
                        self.member(key@) == lookup(members@, key@, 0),
                        lookup(members@, key@, 0) == lookup(members@, key@, i as int),
                    decreases members.len() - i,
                {
                    assert(members@[i as int].0@ == key@ ==> lookup(members@, key@, i as int)
                        == Some(members@[i as int].1));
                    assert(members@[i as int].0@ != key@ ==> lookup(members@, key@, i as int)
                        == lookup(members@, key@, i + 1));
                    if members[i].0 == wanted {
                        return Some(&members[i].1);
                    }
                    i += 1;
                }
                None
            },
            _ => None,
        }
    }

    pub fn to_text(&self) -> (value: Option<String>)
        ensures
            match value {
                Some(text) => self.as_text() == Some(text@),
                None => self.as_text() is None,
            },
    {
        match self {
            Json::Text(text) => Some(text.clone()),
            _ => None,
        }
    }

    pub fn to_number(&self) -> (value: Option<JsonNumber>)
        ensures
            match value {
                Some(n) => self.as_number() == Some(n@),
                None => self.as_number() is None,
            },
    {
        match self {
            Json::Number(n) => Some(n.clone()),
            _ => None,
        }
    }

    pub fn to_u32(&self) -> (value: Option<u32>)
        ensures
            value == self.as_u32(),
    {
        match self {
            Json::Number(JsonNumber::Unsigned(n)) => if *n <= 0xffff_ffff {
                Some(*n as u32)
            } else {
                None
            },
            Json::Number(JsonNumber::Signed(n)) => if 0 <= *n && *n <= 0xffff_ffff {
                Some(*n as u32)
            } else {
                None
            },
            _ => None,
        }
    }

    pub fn to_i32(&self) -> (value: Option<i32>)
        ensures
            value == self.as_i32(),
    {
        match self {
            Json::Number(JsonNumber::Unsigned(n)) => if *n <= 0x7fff_ffff {
                Some(*n as i32)
            } else {
                None
            },
            Json::Number(JsonNumber::Signed(n)) => if -0x8000_0000 <= *n && *n <= 0x7fff_ffff {
                Some(*n as i32)
            } else {
                None
            },
            _ => None,
        }
    }
}

} // verus!
