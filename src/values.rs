//! The closed tagged union of everything a member can hold.

use crate::identity::{Identifier, ShapeID};
use vstd::prelude::*;

verus! {

/// A value stored against a member of a shape.
#[derive(Debug)]
pub enum NodeValue {
    /// A string.
    String(String),
    /// A reference to another shape.
    ShapeID(ShapeID),
    /// An ordered list of values.
    Array(Vec<NodeValue>),
    /// An ordered collection of keyed values.
    Object(Vec<(Identifier, NodeValue)>),
}

/// The text of a `String` value (empty for any other variant).
pub open spec fn text_view(v: NodeValue) -> Seq<char> {
    match v {
        NodeValue::String(s) => s@,
        _ => Seq::empty(),
    }
}

/// The shape named by a `ShapeID` value (empty for any other variant).
pub open spec fn reference_view(v: NodeValue) -> Seq<char> {
    match v {
        NodeValue::ShapeID(id) => id@,
        _ => Seq::empty(),
    }
}

/// Every element is a reference.
pub open spec fn all_references(vs: Seq<NodeValue>) -> bool {
    forall|i: int| 0 <= i < vs.len() ==> (#[trigger] vs[i]) is ShapeID
}

/// The shapes named by a list of reference values, in order.
pub open spec fn references_view(vs: Seq<NodeValue>) -> Seq<Seq<char>> {
    vs.map_values(|v: NodeValue| reference_view(v))
}

/// Every entry maps its key to a reference, and no key occurs twice.
pub open spec fn is_reference_table(es: Seq<(Identifier, NodeValue)>) -> bool {
    &&& forall|i: int| 0 <= i < es.len() ==> (#[trigger] es[i]).1 is ShapeID
    &&& unique_keys(entries_view(es))
}

/// The entries of a keyed collection as pairs of key and referenced shape, in order.
pub open spec fn entries_view(es: Seq<(Identifier, NodeValue)>) -> Seq<(Seq<char>, Seq<char>)> {
    es.map_values(|e: (Identifier, NodeValue)| (e.0@, reference_view(e.1)))
}

/// No key occurs in two entries.
pub open spec fn unique_keys(es: Seq<(Seq<char>, Seq<char>)>) -> bool {
    forall|i: int, j: int|
        0 <= i < es.len() && 0 <= j < es.len() && i != j ==> (#[trigger] es[i]).0 != (#[trigger] es[j]).0
}

/// Some entry has the key.
pub open spec fn has_key(es: Seq<(Seq<char>, Seq<char>)>, k: Seq<char>) -> bool {
    exists|i: int| 0 <= i < es.len() && (#[trigger] es[i]).0 == k
}

/// The entries after `k` is bound to `v`: the entry with key `k` takes the new
/// reference in place, or, with no such entry, a new one goes at the end.
pub open spec fn entries_insert(
    es: Seq<(Seq<char>, Seq<char>)>,
    k: Seq<char>,
    v: Seq<char>,
) -> Seq<(Seq<char>, Seq<char>)> {
    if has_key(es, k) {
        es.update(choose|i: int| 0 <= i < es.len() && (#[trigger] es[i]).0 == k, (k, v))
    } else {
        es.push((k, v))
    }
}

/// The entries after the one with key `k`, if any, is taken out.
pub open spec fn entries_remove(es: Seq<(Seq<char>, Seq<char>)>, k: Seq<char>) -> Seq<
    (Seq<char>, Seq<char>),
> {
    if has_key(es, k) {
        es.remove(choose|i: int| 0 <= i < es.len() && (#[trigger] es[i]).0 == k)
    } else {
        es
    }
}

/// The references after every one equal to `x` is taken out.
pub open spec fn references_remove(rs: Seq<Seq<char>>, x: Seq<char>) -> Seq<Seq<char>> {
    rs.filter(|r: Seq<char>| r != x)
}

} // verus!
