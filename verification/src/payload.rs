//! The payload object of a frame, and the envelope split.
//!
//! A text frame is either a `{stream, data}` envelope — the payload is the
//! `data` slot and the `stream` string is kept as the classification hint —
//! or the bare event value itself. Either way the rules read the same
//! things: the payload's immediate fields, or, for a batch, the fields of
//! each array element. `Payload` holds exactly that.

use vstd::prelude::*;

use crate::json::{
    elems_view, obj_first, pairs_get, pairs_view, Json0, Json1, Json2, JsonLeaf, LeafVal, Val0,
    Val1, Val2,
};

verus! {

/// One element of a payload that is an array.
#[derive(Debug, Clone, PartialEq)]
pub enum PayloadItem {
    Obj(Vec<(String, JsonLeaf)>),
    /// An element that is not an object; no decoder reads into it.
    Other,
}

/// The payload object a frame is classified by.
#[derive(Debug, Clone, PartialEq)]
pub enum Payload {
    Obj(Vec<(String, JsonLeaf)>),
    Arr(Vec<PayloadItem>),
    /// A payload that is not structured (a bare string, number, boolean or
    /// null): such a frame yields no event and no error.
    Other,
}

/// Mathematical value of a `PayloadItem`.
pub enum PayloadItemVal {
    Obj(Seq<(Seq<char>, LeafVal)>),
    Other,
}

/// Mathematical value of a `Payload`.
pub enum PayloadVal {
    Obj(Seq<(Seq<char>, LeafVal)>),
    Arr(Seq<PayloadItemVal>),
    Other,
}

impl View for PayloadItem {
    type V = PayloadItemVal;

    open spec fn view(&self) -> PayloadItemVal {
        match self {
            PayloadItem::Obj(fs) => PayloadItemVal::Obj(pairs_view(fs@)),
            PayloadItem::Other => PayloadItemVal::Other,
        }
    }
}

impl View for Payload {
    type V = PayloadVal;

    open spec fn view(&self) -> PayloadVal {
        match self {
            Payload::Obj(fs) => PayloadVal::Obj(pairs_view(fs@)),
            Payload::Arr(es) => PayloadVal::Arr(elems_view(es@)),
            Payload::Other => PayloadVal::Other,
        }
    }
}

/// A field value one level below the modelled depth, seen as a leaf.
pub open spec fn leaf_of_val0(v: Val0) -> LeafVal {
    match v {
        Val0::Leaf(l) => l,
        _ => LeafVal::Deep,
    }
}

/// A field value two levels below the modelled depth, seen as a leaf.
pub open spec fn leaf_of_val1(v: Val1) -> LeafVal {
    match v {
        Val1::Leaf(l) => l,
        _ => LeafVal::Deep,
    }
}

/// Fields of an inner object, each value seen as a leaf.
pub open spec fn flat_pairs0(fs: Seq<(Seq<char>, Val0)>) -> Seq<(Seq<char>, LeafVal)> {
    fs.map_values(|p: (Seq<char>, Val0)| (p.0, leaf_of_val0(p.1)))
}

/// Fields of an outer object, each value seen as a leaf.
pub open spec fn flat_pairs1(fs: Seq<(Seq<char>, Val1)>) -> Seq<(Seq<char>, LeafVal)> {
    fs.map_values(|p: (Seq<char>, Val1)| (p.0, leaf_of_val1(p.1)))
}

/// An array element of an enveloped payload, as a payload item.
pub open spec fn item_of_val0(v: Val0) -> PayloadItemVal {
    match v {
        Val0::Obj(fs) => PayloadItemVal::Obj(fs),
        _ => PayloadItemVal::Other,
    }
}

/// An array element of a bare payload, as a payload item.
pub open spec fn item_of_val1(v: Val1) -> PayloadItemVal {
    match v {
        Val1::Obj(fs) => PayloadItemVal::Obj(flat_pairs0(fs)),
        _ => PayloadItemVal::Other,
    }
}

/// The payload of an enveloped frame: the value of its `data` slot.
pub open spec fn payload_of_val1(v: Val1) -> PayloadVal {
    match v {
        Val1::Obj(fs) => PayloadVal::Obj(flat_pairs0(fs)),
        Val1::Arr(es) => PayloadVal::Arr(es.map_values(|x: Val0| item_of_val0(x))),
        Val1::Leaf(_) => PayloadVal::Other,
    }
}

/// The payload of a bare frame: the top-level value itself.
pub open spec fn payload_of_val2(v: Val2) -> PayloadVal {
    match v {
        Val2::Obj(fs) => PayloadVal::Obj(flat_pairs1(fs)),
        Val2::Arr(es) => PayloadVal::Arr(es.map_values(|x: Val1| item_of_val1(x))),
        Val2::Leaf(_) => PayloadVal::Other,
    }
}

/// The stream hint of a frame: the string value of the `stream` field of a
/// `{stream, data}` envelope, and nothing otherwise.
pub open spec fn envelope_hint(v: Val2) -> Option<Seq<char>> {
    match v {
        Val2::Obj(fs) => match obj_first(fs, "stream"@) {
            Some(Val1::Leaf(LeafVal::Str(h))) => if obj_first(fs, "data"@) is Some {
                Some(h)
            } else {
                None
            },
            _ => None,
        },
        _ => None,
    }
}

/// The payload object of a frame: the `data` slot where the frame is an
/// envelope, the top-level value itself where it is not.
pub open spec fn spec_payload(v: Val2) -> PayloadVal {
    match v {
        Val2::Obj(fs) => if envelope_hint(v) is Some {
            match obj_first(fs, "data"@) {
                Some(d) => payload_of_val1(d),
                None => PayloadVal::Other,
            }
        } else {
            payload_of_val2(v)
        },
        _ => payload_of_val2(v),
    }
}

/// Looking a field up among flattened outer fields finds the flattened
/// value of the same field.
pub proof fn lemma_obj_first_flat1(fs: Seq<(Seq<char>, Val1)>, key: Seq<char>)
    ensures
        obj_first(flat_pairs1(fs), key) == match obj_first(fs, key) {
            Some(v) => Some(leaf_of_val1(v)),
            None => None::<LeafVal>,
        },
    decreases fs.len(),
{
    if fs.len() == 0 {
    } else {
        lemma_obj_first_flat1(fs.drop_first(), key);
        assert(flat_pairs1(fs)[0] == (fs[0].0, leaf_of_val1(fs[0].1)));
        assert(flat_pairs1(fs).drop_first() =~= flat_pairs1(fs.drop_first()));
    }
}

/// A leaf rebuilt value-for-value.
fn clone_leaf(l: &JsonLeaf) -> (r: JsonLeaf)
    ensures
        r@ == l@,
{
    match l {
        JsonLeaf::Null => JsonLeaf::Null,
        JsonLeaf::Bool(b) => JsonLeaf::Bool(*b),
        JsonLeaf::Num(n) => JsonLeaf::Num(*n),
        JsonLeaf::Str(s) => JsonLeaf::Str(s.clone()),
        JsonLeaf::Deep => JsonLeaf::Deep,
    }
}

/// An inner value seen as a leaf.
fn leaf_of_json0(x: &Json0) -> (r: JsonLeaf)
    ensures
        r@ == leaf_of_val0(x@),
{
    match x {
        Json0::Leaf(l) => clone_leaf(l),
        _ => JsonLeaf::Deep,
    }
}

/// A middle-level value seen as a leaf.
fn leaf_of_json1(x: &Json1) -> (r: JsonLeaf)
    ensures
        r@ == leaf_of_val1(x@),
{
    match x {
        Json1::Leaf(l) => clone_leaf(l),
        _ => JsonLeaf::Deep,
    }
}

/// Leaf fields rebuilt pair-for-pair.
fn clone_leaf_fields(fs: &Vec<(String, JsonLeaf)>) -> (r: Vec<(String, JsonLeaf)>)
    ensures
        pairs_view(r@) == pairs_view(fs@),
{
    let mut out: Vec<(String, JsonLeaf)> = Vec::new();
    let mut i: usize = 0;
    while i < fs.len()
        invariant
            i <= fs@.len(),
            out@.len() == i,
            forall|k: int| 0 <= k < i ==> pairs_view(out@)[k] == pairs_view(fs@)[k],
        decreases fs@.len() - i,
    {
        out.push((fs[i].0.clone(), clone_leaf(&fs[i].1)));
        i += 1;
    }
    assert(pairs_view(out@) =~= pairs_view(fs@));
    out
}

/// Fields of an inner object, each value flattened to a leaf.
fn fields_of_json0(fs: &Vec<(String, Json0)>) -> (r: Vec<(String, JsonLeaf)>)
    ensures
        pairs_view(r@) == flat_pairs0(pairs_view(fs@)),
{
    let mut out: Vec<(String, JsonLeaf)> = Vec::new();
    let mut i: usize = 0;
    while i < fs.len()
        invariant
            i <= fs@.len(),
            out@.len() == i,
            forall|k: int| 0 <= k < i ==> pairs_view(out@)[k] == flat_pairs0(pairs_view(fs@))[k],
        decreases fs@.len() - i,
    {
        let ghost prev = out@;
        out.push((fs[i].0.clone(), leaf_of_json0(&fs[i].1)));
        proof {
            assert forall|k: int| 0 <= k < i + 1 implies pairs_view(out@)[k] == flat_pairs0(
                pairs_view(fs@),
            )[k] by {
                assert(pairs_view(fs@)[k] == (fs@[k].0@, fs@[k].1@));
                if k < i {
                    assert(out@[k] == prev[k]);
                    assert(pairs_view(prev)[k] == (prev[k].0@, prev[k].1@));
                }
            }
        }
        i += 1;
    }
    assert(pairs_view(out@) =~= flat_pairs0(pairs_view(fs@)));
    out
}

/// Fields of an outer object, each value flattened to a leaf.
fn fields_of_json1(fs: &Vec<(String, Json1)>) -> (r: Vec<(String, JsonLeaf)>)
    ensures
        pairs_view(r@) == flat_pairs1(pairs_view(fs@)),
{
    let mut out: Vec<(String, JsonLeaf)> = Vec::new();
    let mut i: usize = 0;
    while i < fs.len()
        invariant
            i <= fs@.len(),
            out@.len() == i,
            forall|k: int| 0 <= k < i ==> pairs_view(out@)[k] == flat_pairs1(pairs_view(fs@))[k],
        decreases fs@.len() - i,
    {
        let ghost prev = out@;
        out.push((fs[i].0.clone(), leaf_of_json1(&fs[i].1)));
        proof {
            assert forall|k: int| 0 <= k < i + 1 implies pairs_view(out@)[k] == flat_pairs1(
                pairs_view(fs@),
            )[k] by {
                assert(pairs_view(fs@)[k] == (fs@[k].0@, fs@[k].1@));
                if k < i {
                    assert(out@[k] == prev[k]);
                    assert(pairs_view(prev)[k] == (prev[k].0@, prev[k].1@));
                }
            }
        }
        i += 1;
    }
    assert(pairs_view(out@) =~= flat_pairs1(pairs_view(fs@)));
    out
}

/// An array element of an enveloped payload, as a payload item.
fn item_of_json0(x: &Json0) -> (r: PayloadItem)
    ensures
        r@ == item_of_val0(x@),
{
    match x {
        Json0::Obj(fs) => PayloadItem::Obj(clone_leaf_fields(fs)),
        _ => PayloadItem::Other,
    }
}

/// An array element of a bare payload, as a payload item.
fn item_of_json1(x: &Json1) -> (r: PayloadItem)
    ensures
        r@ == item_of_val1(x@),
{
    match x {
        Json1::Obj(fs) => PayloadItem::Obj(fields_of_json0(fs)),
        _ => PayloadItem::Other,
    }
}

/// The payload of an enveloped frame.
fn payload_of_data(d: &Json1) -> (r: Payload)
    ensures
        r@ == payload_of_val1(d@),
{
    match d {
        Json1::Obj(fs) => Payload::Obj(fields_of_json0(fs)),
        Json1::Arr(es) => {
            let mut out: Vec<PayloadItem> = Vec::new();
            let mut i: usize = 0;
            while i < es.len()
                invariant
                    i <= es@.len(),
                    out@.len() == i,
                    forall|k: int|
                        0 <= k < i ==> elems_view(out@)[k] == item_of_val0(elems_view(es@)[k]),
                decreases es@.len() - i,
            {
                let ghost prev = out@;
                out.push(item_of_json0(&es[i]));
                proof {
                    assert forall|k: int| 0 <= k < i + 1 implies elems_view(out@)[k]
                        == item_of_val0(elems_view(es@)[k]) by {
                        assert(elems_view(es@)[k] == es@[k]@);
                        if k < i {
                            assert(out@[k] == prev[k]);
                            assert(elems_view(prev)[k] == prev[k]@);
                        }
                    }
                }
                i += 1;
            }
            assert(elems_view(out@) =~= elems_view(es@).map_values(|x: Val0| item_of_val0(x)));
            Payload::Arr(out)
        },
        Json1::Leaf(_) => Payload::Other,
    }
}

/// The payload of a bare frame.
fn payload_of_top(t: &Json2) -> (r: Payload)
    ensures
        r@ == payload_of_val2(t@),
{
    match t {
        Json2::Obj(fs) => Payload::Obj(fields_of_json1(fs)),
        Json2::Arr(es) => {
            let mut out: Vec<PayloadItem> = Vec::new();
            let mut i: usize = 0;
            while i < es.len()
                invariant
                    i <= es@.len(),
                    out@.len() == i,
                    forall|k: int|
                        0 <= k < i ==> elems_view(out@)[k] == item_of_val1(elems_view(es@)[k]),
                decreases es@.len() - i,
            {
                let ghost prev = out@;
                out.push(item_of_json1(&es[i]));
                proof {
                    assert forall|k: int| 0 <= k < i + 1 implies elems_view(out@)[k]
                        == item_of_val1(elems_view(es@)[k]) by {
                        assert(elems_view(es@)[k] == es@[k]@);
                        if k < i {
                            assert(out@[k] == prev[k]);
                            assert(elems_view(prev)[k] == prev[k]@);
                        }
                    }
                }
                i += 1;
            }
            assert(elems_view(out@) =~= elems_view(es@).map_values(|x: Val1| item_of_val1(x)));
            Payload::Arr(out)
        },
        Json2::Leaf(_) => Payload::Other,
    }
}

/// Split a parsed frame into its stream hint and its payload object.
pub fn split_envelope(top: &Json2) -> (r: (Option<String>, Payload))
    ensures
        match r.0 {
            Some(h) => envelope_hint(top@) == Some(h@),
            None => envelope_hint(top@) is None,
        },
        r.1@ == spec_payload(top@),
{
    match top {
        Json2::Obj(fs) => {
            let sv = pairs_get(fs, "stream");
            let dv = pairs_get(fs, "data");
            match (sv, dv) {
                (Some(Json1::Leaf(JsonLeaf::Str(h))), Some(d)) => (
                    Some(h.clone()),
                    payload_of_data(d),
                ),
                _ => (None, payload_of_top(top)),
            }
        },
        _ => (None, payload_of_top(top)),
    }
}

} // verus!
