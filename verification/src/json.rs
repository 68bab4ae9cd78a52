//! The library's own model of a parsed frame.
//!
//! The classification rules read a frame's JSON structure only down to a
//! fixed depth: the outer envelope, the payload object's (or array's)
//! immediate fields, and — for ticker batches — the fields of each array
//! element. The model therefore holds three nesting levels explicitly;
//! anything deeper is kept as the opaque `Deep` leaf, which no rule reads.

use vstd::prelude::*;

verus! {

/// A primitive JSON value, or a composite below the modelled depth.
#[derive(Debug, Clone, PartialEq)]
pub enum JsonLeaf {
    Null,
    Bool(bool),
    /// A number; `Some` when it is a non-negative integer that fits `u64`.
    Num(Option<u64>),
    Str(String),
    /// An array or object nested deeper than any classification rule reads.
    Deep,
}

/// Innermost modelled level: fields and elements are leaves.
#[derive(Debug, Clone, PartialEq)]
pub enum Json0 {
    Leaf(JsonLeaf),
    Arr(Vec<JsonLeaf>),
    Obj(Vec<(String, JsonLeaf)>),
}

/// Middle level: the `data` slot of an envelope.
#[derive(Debug, Clone, PartialEq)]
pub enum Json1 {
    Leaf(JsonLeaf),
    Arr(Vec<Json0>),
    Obj(Vec<(String, Json0)>),
}

/// Outermost level: the whole frame text.
#[derive(Debug, Clone, PartialEq)]
pub enum Json2 {
    Leaf(JsonLeaf),
    Arr(Vec<Json1>),
    Obj(Vec<(String, Json1)>),
}

/// Mathematical value of a `JsonLeaf`.
pub enum LeafVal {
    Null,
    Bool(bool),
    Num(Option<u64>),
    Str(Seq<char>),
    Deep,
}

/// Mathematical value of a `Json0`.
pub enum Val0 {
    Leaf(LeafVal),
    Arr(Seq<LeafVal>),
    Obj(Seq<(Seq<char>, LeafVal)>),
}

/// Mathematical value of a `Json1`.
pub enum Val1 {
    Leaf(LeafVal),
    Arr(Seq<Val0>),
    Obj(Seq<(Seq<char>, Val0)>),
}

/// Mathematical value of a `Json2`.
pub enum Val2 {
    Leaf(LeafVal),
    Arr(Seq<Val1>),
    Obj(Seq<(Seq<char>, Val1)>),
}

/// The sequence of element values of a sequence of viewable things.
pub open spec fn elems_view<T: View>(xs: Seq<T>) -> Seq<T::V> {
    xs.map_values(|x: T| x@)
}

/// The sequence of (field name, field value) pairs of an object's fields.
pub open spec fn pairs_view<T: View>(fs: Seq<(String, T)>) -> Seq<(Seq<char>, T::V)> {
    fs.map_values(|p: (String, T)| (p.0@, p.1@))
}

impl View for JsonLeaf {
    type V = LeafVal;

    open spec fn view(&self) -> LeafVal {
        match self {
            JsonLeaf::Null => LeafVal::Null,
            JsonLeaf::Bool(b) => LeafVal::Bool(*b),
            JsonLeaf::Num(n) => LeafVal::Num(*n),
            JsonLeaf::Str(s) => LeafVal::Str(s@),
            JsonLeaf::Deep => LeafVal::Deep,
        }
    }
}

impl View for Json0 {
    type V = Val0;

    open spec fn view(&self) -> Val0 {
        match self {
            Json0::Leaf(l) => Val0::Leaf(l@),
            Json0::Arr(a) => Val0::Arr(elems_view(a@)),
            Json0::Obj(fs) => Val0::Obj(pairs_view(fs@)),
        }
    }
}

impl View for Json1 {
    type V = Val1;

    open spec fn view(&self) -> Val1 {
        match self {
            Json1::Leaf(l) => Val1::Leaf(l@),
            Json1::Arr(a) => Val1::Arr(elems_view(a@)),
            Json1::Obj(fs) => Val1::Obj(pairs_view(fs@)),
        }
    }
}

impl View for Json2 {
    type V = Val2;

    open spec fn view(&self) -> Val2 {
        match self {
            Json2::Leaf(l) => Val2::Leaf(l@),
            Json2::Arr(a) => Val2::Arr(elems_view(a@)),
            Json2::Obj(fs) => Val2::Obj(pairs_view(fs@)),
        }
    }
}

/// The value of the first field named `key`, if any. JSON objects keep
/// their fields in the order the parser handed them over; a lookup takes
/// the first match, which makes it deterministic either way.
pub open spec fn obj_first<V>(fs: Seq<(Seq<char>, V)>, key: Seq<char>) -> Option<V>
    decreases fs.len(),
{
    if fs.len() == 0 {
        None
    } else if fs[0].0 == key {
        Some(fs[0].1)
    } else {
        obj_first(fs.drop_first(), key)
    }
}

/// First field of `fs` named `key`, as `obj_first` finds it over the view.
pub fn pairs_get<'a, T: View>(fs: &'a Vec<(String, T)>, key: &str) -> (r: Option<&'a T>)
    ensures
        match r {
            Some(t) => obj_first(pairs_view(fs@), key@) == Some(t@),
            None => obj_first(pairs_view(fs@), key@) is None,
        },
{
    let mut i: usize = 0;
    assert(pairs_view(fs@).skip(0) =~= pairs_view(fs@));
    while i < fs.len()
        invariant
            i <= fs@.len(),
            obj_first(pairs_view(fs@), key@) == obj_first(pairs_view(fs@).skip(i as int), key@),
        decreases fs@.len() - i,
    {
        if crate::text::str_eq(fs[i].0.as_str(), key) {
            assert(pairs_view(fs@).skip(i as int)[0] == pairs_view(fs@)[i as int]);
            return Some(&fs[i].1);
        }
        assert(pairs_view(fs@).skip(i as int)[0] == pairs_view(fs@)[i as int]);
        assert(pairs_view(fs@).skip(i as int).drop_first() =~= pairs_view(fs@).skip(i + 1));
        i += 1;
    }
    assert(pairs_view(fs@).skip(i as int) =~= Seq::<(Seq<char>, T::V)>::empty());
    None
}

} // verus!
