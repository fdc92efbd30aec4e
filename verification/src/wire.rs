//! The structured wire representation exchanged across the bridge.
//!
//! The native call boundary accepts only structured records, never bare
//! scalars, so every request is marshalled into a [`WireValue`] before it
//! crosses the boundary and every native response arrives as one. Records
//! keep their fields in order; a field is read by its wire name, unknown
//! fields are ignored, and a duplicated name resolves to its first
//! occurrence.

use vstd::prelude::*;

verus! {

/// A structured wire value: the bridge's model of the loosely typed
/// payloads that cross the caller/backend boundary.
#[derive(Debug, PartialEq)]
pub enum WireValue {
    /// An absent or empty value.
    Null,
    /// A boolean scalar.
    Bool(bool),
    /// An integer scalar.
    Int(i64),
    /// A text scalar.
    Str(String),
    /// An ordered list of values.
    Arr(Vec<WireValue>),
    /// A record of named fields, in order.
    Obj(Vec<(String, WireValue)>),
}

/// The first value bound to `name` among `fields`, if any.
pub open spec fn lookup(fields: Seq<(String, WireValue)>, name: Seq<char>) -> Option<WireValue>
    decreases fields.len(),
{
    if fields.len() == 0 {
        None
    } else if fields[0].0@ == name {
        Some(fields[0].1)
    } else {
        lookup(fields.skip(1), name)
    }
}

/// The text of a string value; the empty sequence on any other value.
pub open spec fn str_view_of(v: WireValue) -> Seq<char> {
    match v {
        WireValue::Str(s) => s@,
        _ => Seq::empty(),
    }
}

/// Whether every element of `items` is a string value.
pub open spec fn all_strings(items: Seq<WireValue>) -> bool {
    forall|i: int| 0 <= i < items.len() ==> items[i] is Str
}

/// The texts of a sequence of string values, element by element.
pub open spec fn string_views(items: Seq<WireValue>) -> Seq<Seq<char>> {
    items.map_values(|v: WireValue| str_view_of(v))
}

/// Find the position of the first field named `name` in a record's
/// field list, and relate it to what [`lookup`] resolves to.
pub fn obj_find_index(fields: &Vec<(String, WireValue)>, name: &String) -> (r: Option<usize>)
    ensures
        (match r {
            Some(i) => {
                &&& i < fields@.len()
                &&& fields@[i as int].0@ == name@
                &&& lookup(fields@, name@) == Some(fields@[i as int].1)
            },
            None => lookup(fields@, name@) is None,
        }),
{
    let mut i: usize = 0;
    proof {
        assert(fields@.skip(0) =~= fields@);
    }
    while i < fields.len()
        invariant
            i <= fields@.len(),
            lookup(fields@, name@) == lookup(fields@.skip(i as int), name@),
        decreases fields@.len() - i,
    {
        let pair = &fields[i];
        if pair.0 == *name {
            proof {
                assert(fields@.skip(i as int)[0] == fields@[i as int]);
            }
            return Some(i);
        }
        proof {
            assert(fields@.skip(i as int)[0] == fields@[i as int]);
            assert(fields@.skip(i as int).skip(1) =~= fields@.skip(i as int + 1));
        }
        i = i + 1;
    }
    proof {
        assert(fields@.skip(i as int).len() == 0);
    }
    None
}

/// Find the first field named `name` in a record's field list.
pub fn obj_get<'a>(fields: &'a Vec<(String, WireValue)>, name: &String) -> (r: Option<&'a WireValue>)
    ensures
        (match r {
            Some(v) => lookup(fields@, name@) == Some(*v),
            None => lookup(fields@, name@) is None,
        }),
{
    match obj_find_index(fields, name) {
        Some(i) => Some(&fields[i].1),
        None => None,
    }
}

} // verus!
