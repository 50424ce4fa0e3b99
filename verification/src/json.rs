//! The mathematical model of JSON documents.

use vstd::prelude::*;

verus! {

/// A JSON number. Integers are held exactly; any other number is held as its decimal text.
pub enum NumberView {
    Integer(int),
    Decimal(Seq<char>),
}

/// A JSON document as a mathematical value. An object is a map from member names to
/// documents, so it has no order and no name twice.
pub enum JsonView {
    Null,
    Bool(bool),
    Number(NumberView),
    String(Seq<char>),
    Array(Seq<JsonView>),
    Object(Map<Seq<char>, JsonView>),
}

impl JsonView {
    /// The member `name` of an object; `None` for anything else and for a missing name.
    pub open spec fn member(self, name: Seq<char>) -> Option<JsonView> {
        match self {
            JsonView::Object(members) if members.contains_key(name) => Some(members[name]),
            _ => None,
        }
    }

    /// The text of a string; `None` for anything else.
    pub open spec fn text(self) -> Option<Seq<char>> {
        match self {
            JsonView::String(text) => Some(text),
            _ => None,
        }
    }

    /// The text of the string member `name`; `None` where there is no such member or
    /// where it is no string.
    pub open spec fn text_member(self, name: Seq<char>) -> Option<Seq<char>> {
        match self.member(name) {
            Some(value) => value.text(),
            None => None,
        }
    }

    /// The object with no member.
    pub open spec fn empty_object() -> JsonView {
        JsonView::Object(Map::empty())
    }

    /// This object with `name` set to `value`, whether or not it had that member.
    pub open spec fn with(self, name: Seq<char>, value: JsonView) -> JsonView
        recommends
            self is Object,
    {
        JsonView::Object(self->Object_0.insert(name, value))
    }
}

} // verus!
