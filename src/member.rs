//! A named slot of a shape, and the accessor patterns that every member of a given
//! cardinality shares: required text, optional reference, ordered references and
//! keyed references.

use crate::identity::{Identifier, ShapeID};
use crate::values::{
    all_references, entries_insert, entries_remove, entries_view, has_key, is_reference_table,
    reference_view, references_remove, references_view, text_view, NodeValue,
};
use vstd::pervasive::unreached;
use vstd::prelude::*;

verus! {

/// A named member of a shape, which may or may not hold a value.
#[derive(Debug)]
pub struct Member {
    name: Identifier,
    value: Option<NodeValue>,
}

impl Member {
    /// The member's name.
    pub closed spec fn name_view(&self) -> Seq<char> {
        self.name@
    }

    /// The value the member holds, if any.
    pub closed spec fn slot(&self) -> Option<NodeValue> {
        self.value
    }

    /// The member holds a string.
    pub open spec fn holds_text(&self) -> bool {
        self.slot() matches Some(NodeValue::String(_))
    }

    /// The member holds a reference or nothing.
    pub open spec fn holds_optional_reference(&self) -> bool {
        match self.slot() {
            None => true,
            Some(NodeValue::ShapeID(_)) => true,
            _ => false,
        }
    }

    /// The member holds a list of references.
    pub open spec fn holds_references(&self) -> bool {
        match self.slot() {
            Some(NodeValue::Array(vs)) => all_references(vs@),
            _ => false,
        }
    }

    /// The member holds a table from identifiers to references with unique keys.
    pub open spec fn holds_reference_table(&self) -> bool {
        match self.slot() {
            Some(NodeValue::Object(es)) => is_reference_table(es@),
            _ => false,
        }
    }

    /// The text the member holds, if any.
    pub open spec fn text_of(&self) -> Option<Seq<char>> {
        match self.slot() {
            Some(v) => Some(text_view(v)),
            None => None,
        }
    }

    /// The shape the member refers to, if any.
    pub open spec fn reference_of(&self) -> Option<Seq<char>> {
        match self.slot() {
            Some(v) => Some(reference_view(v)),
            None => None,
        }
    }

    /// The shapes the member's list refers to, in order.
    pub open spec fn references_of(&self) -> Seq<Seq<char>> {
        match self.slot() {
            Some(NodeValue::Array(vs)) => references_view(vs@),
            _ => Seq::empty(),
        }
    }

    /// The entries of the member's table, as key and referenced shape.
    pub open spec fn entries_of(&self) -> Seq<(Seq<char>, Seq<char>)> {
        match self.slot() {
            Some(NodeValue::Object(es)) => entries_view(es@),
            _ => Seq::empty(),
        }
    }

    /// A member with no value.
    pub fn new(name: Identifier) -> (r: Member)
        ensures
            r.name_view() == name@,
            r.slot() is None,
    {
        Member { name, value: None }
    }

    /// A member that holds `value` from the start.
    pub fn with_value(name: Identifier, value: NodeValue) -> (r: Member)
        ensures
            r.name_view() == name@,
            r.slot() == Some(value),
    {
        Member { name, value: Some(value) }
    }

    /// The member's name.
    pub fn name(&self) -> (r: &Identifier)
        ensures
            r@ == self.name_view(),
    {
        &self.name
    }

    /// The value the member holds, if any.
    pub fn value(&self) -> (r: Option<&NodeValue>)
        ensures
            r is Some <==> self.slot() is Some,
            r is Some ==> *r->0 == self.slot()->0,
    {
        self.value.as_ref()
    }

    /// The value the member holds, if any, to be edited in place.
    pub fn value_mut(&mut self) -> (r: Option<&mut NodeValue>)
        ensures
            r is Some <==> old(self).slot() is Some,
            r matches Some(v) ==> *v == old(self).slot()->0 && final(self).slot() == Some(*final(v)),
            r is None ==> final(self).slot() is None,
            final(self).name_view() == old(self).name_view(),
    {
        self.value.as_mut()
    }

    /// Replaces the member's value, whatever it held.
    pub fn set_value(&mut self, value: NodeValue)
        ensures
            final(self).name_view() == old(self).name_view(),
            final(self).slot() == Some(value),
    {
        self.value = Some(value);
    }

    /// Leaves the member without a value.
    pub fn unset_value(&mut self)
        ensures
            final(self).name_view() == old(self).name_view(),
            final(self).slot() is None,
    {
        self.value = None;
    }

    /// The text of a member that holds a string.
    pub fn text(&self) -> (r: &String)
        requires
            self.holds_text(),
        ensures
            Some(r@) == self.text_of(),
    {
        match &self.value {
            Some(NodeValue::String(s)) => s,
            _ => unreached(),
        }
    }

    /// The shape that a member holding a reference or nothing refers to.
    pub fn reference(&self) -> (r: Option<&ShapeID>)
        requires
            self.holds_optional_reference(),
        ensures
            r is Some <==> self.reference_of() is Some,
            r is Some ==> r->0@ == self.reference_of()->0,
    {
        match &self.value {
            None => None,
            Some(NodeValue::ShapeID(id)) => Some(id),
            _ => unreached(),
        }
    }

    /// Stores a reference, whatever the member held.
    pub fn set_reference(&mut self, id: ShapeID)
        ensures
            final(self).name_view() == old(self).name_view(),
            final(self).holds_optional_reference(),
            final(self).reference_of() == Some(id@),
    {
        self.value = Some(NodeValue::ShapeID(id));
    }

    /// Whether the member's list holds any reference.
    pub fn has_references(&self) -> (r: bool)
        requires
            self.holds_references(),
        ensures
            r == (self.references_of().len() > 0),
    {
        match &self.value {
            Some(NodeValue::Array(vs)) => vs.len() > 0,
            _ => unreached(),
        }
    }

    /// The shapes the member's list refers to, in order.
    pub fn references(&self) -> (r: Vec<&ShapeID>)
        requires
            self.holds_references(),
        ensures
            r@.map_values(|id: &ShapeID| id@) == self.references_of(),
    {
        match &self.value {
            Some(NodeValue::Array(vs)) => {
                let mut out: Vec<&ShapeID> = Vec::new();
                let mut i: usize = 0;
                while i < vs.len()
                    invariant
                        i <= vs@.len(),
                        all_references(vs@),
                        out@.len() == i,
                        forall|j: int| 0 <= j < i ==> (#[trigger] out@[j])@ == reference_view(vs@[j]),
                    decreases vs@.len() - i,
                {
                    match &vs[i] {
                        NodeValue::ShapeID(id) => out.push(id),
                        _ => {
                            assert(vs@[i as int] is ShapeID);
                        },
                    }
                    i += 1;
                }
                assert(out@.map_values(|id: &ShapeID| id@) =~= references_view(vs@));
                out
            },
            _ => unreached(),
        }
    }

    /// Puts a reference at the end of the member's list.
    pub fn add_reference(&mut self, id: ShapeID)
        requires
            old(self).holds_references(),
        ensures
            final(self).name_view() == old(self).name_view(),
            final(self).holds_references(),
            final(self).references_of() == old(self).references_of().push(id@),
    {
        match &mut self.value {
            Some(NodeValue::Array(vs)) => {
                let ghost before = vs@;
                vs.push(NodeValue::ShapeID(id));
                assert(references_view(vs@) =~= references_view(before).push(id@));
            },
            _ => {
                assert(false);
            },
        }
    }
    /// Puts references at the end of the member's list, in their order.
    pub fn append_references(&mut self, ids: &[ShapeID])
        requires
            old(self).holds_references(),
        ensures
            final(self).name_view() == old(self).name_view(),
            final(self).holds_references(),
            final(self).references_of() == old(self).references_of() + ids@.map_values(
                |id: ShapeID| id@,
            ),
    {
        let ghost start = self.references_of();
        let mut i: usize = 0;
        while i < ids.len()
            invariant
                i <= ids@.len(),
                self.name_view() == old(self).name_view(),
                self.holds_references(),
                self.references_of() == start + ids@.take(i as int).map_values(|id: ShapeID| id@),
            decreases ids@.len() - i,
        {
            self.add_reference(ids[i].clone());
            assert(ids@.take(i + 1).map_values(|id: ShapeID| id@) =~= ids@.take(i as int).map_values(
                |id: ShapeID| id@,
            ).push(ids@[i as int]@));
            i += 1;
        }
        assert(ids@.take(i as int) =~= ids@);
    }

    /// Takes every reference equal to `id` out of the member's list, keeping the
    /// order of the others.
    pub fn remove_reference(&mut self, id: &ShapeID)
        requires
            old(self).holds_references(),
        ensures
            final(self).name_view() == old(self).name_view(),
            final(self).holds_references(),
            final(self).references_of() == references_remove(old(self).references_of(), id@),
    {
        match &mut self.value {
            Some(NodeValue::Array(vs)) => {
                retain_other_references(vs, id);
            },
            _ => {
                assert(false);
            },
        }
    }

    /// Whether the member's table holds any entry.
    pub fn has_entries(&self) -> (r: bool)
        requires
            self.holds_reference_table(),
        ensures
            r == (self.entries_of().len() > 0),
    {
        match &self.value {
            Some(NodeValue::Object(es)) => es.len() > 0,
            _ => unreached(),
        }
    }

    /// The entries of the member's table, as key and referenced shape, in order.
    pub fn entries(&self) -> (r: Vec<(&Identifier, &ShapeID)>)
        requires
            self.holds_reference_table(),
        ensures
            r@.map_values(|e: (&Identifier, &ShapeID)| (e.0@, e.1@)) == self.entries_of(),
    {
        match &self.value {
            Some(NodeValue::Object(es)) => {
                let mut out: Vec<(&Identifier, &ShapeID)> = Vec::new();
                let mut i: usize = 0;
                while i < es.len()
                    invariant
                        i <= es@.len(),
                        is_reference_table(es@),
                        out@.len() == i,
                        forall|j: int|
                            0 <= j < i ==> ((#[trigger] out@[j]).0@, out@[j].1@) == entries_view(
                                es@,
                            )[j],
                    decreases es@.len() - i,
                {
                    let e = &es[i];
                    match &e.1 {
                        NodeValue::ShapeID(id) => out.push((&e.0, id)),
                        _ => {
                            assert(es@[i as int].1 is ShapeID);
                        },
                    }
                    i += 1;
                }
                assert(out@.map_values(|e: (&Identifier, &ShapeID)| (e.0@, e.1@)) =~= entries_view(
                    es@,
                ));
                out
            },
            _ => unreached(),
        }
    }

    /// Binds `key` to `id` in the member's table: an entry with that key takes the
    /// new reference in place, else a new entry goes at the end.
    pub fn insert_entry(&mut self, key: Identifier, id: ShapeID)
        requires
            old(self).holds_reference_table(),
        ensures
            final(self).name_view() == old(self).name_view(),
            final(self).holds_reference_table(),
            final(self).entries_of() == entries_insert(old(self).entries_of(), key@, id@),
    {
        match &mut self.value {
            Some(NodeValue::Object(es)) => {
                let ghost before = entries_view(es@);
                match key_position(es, &key) {
                    Some(i) => {
                        let ghost c = choose|c: int|
                            0 <= c < before.len() && (#[trigger] before[c]).0 == key@;
                        assert(before[i as int].0 == key@);
                        assert(c == i);
                        es.set(i, (key, NodeValue::ShapeID(id)));
                        assert(entries_view(es@) =~= before.update(i as int, (key@, id@)));
                    },
                    None => {
                        es.push((key, NodeValue::ShapeID(id)));
                        assert(entries_view(es@) =~= before.push((key@, id@)));
                    },
                }
            },
            _ => {
                assert(false);
            },
        }
    }

    /// Takes the entry with key `key`, if any, out of the member's table.
    pub fn remove_entry(&mut self, key: &Identifier)
        requires
            old(self).holds_reference_table(),
        ensures
            final(self).name_view() == old(self).name_view(),
            final(self).holds_reference_table(),
            final(self).entries_of() == entries_remove(old(self).entries_of(), key@),
    {
        match &mut self.value {
            Some(NodeValue::Object(es)) => {
                let ghost before = entries_view(es@);
                match key_position(es, key) {
                    Some(i) => {
                        let ghost c = choose|c: int|
                            0 <= c < before.len() && (#[trigger] before[c]).0 == key@;
                        assert(before[i as int].0 == key@);
                        assert(c == i);
                        let ghost old_es = es@;
                        es.remove(i);
                        assert(entries_view(es@) =~= before.remove(i as int));
                        assert forall|j: int| 0 <= j < es@.len() implies (#[trigger] es@[j]).1 is ShapeID by {
                            if j < i {
                                assert(es@[j] == old_es[j]);
                            } else {
                                assert(es@[j] == old_es[j + 1]);
                            }
                        }
                    },
                    None => {},
                }
            },
            _ => {
                assert(false);
            },
        }
    }
}

/// Where the entry with key `key` stands in a table, if there is one.
fn key_position(es: &Vec<(Identifier, NodeValue)>, key: &Identifier) -> (r: Option<usize>)
    ensures
        r matches Some(i) ==> i < es@.len() && entries_view(es@)[i as int].0 == key@,
        r is None ==> !has_key(entries_view(es@), key@),
{
    let mut i: usize = 0;
    while i < es.len()
        invariant
            i <= es@.len(),
            forall|j: int| 0 <= j < i ==> (#[trigger] entries_view(es@)[j]).0 != key@,
        decreases es@.len() - i,
    {
        if es[i].0 == *key {
            return Some(i);
        }
        i += 1;
    }
    None
}

/// Takes every reference equal to `id` out of a list of references, keeping the
/// order of the others.
fn retain_other_references(vs: &mut Vec<NodeValue>, id: &ShapeID)
    requires
        all_references(old(vs)@),
    ensures
        all_references(final(vs)@),
        references_view(final(vs)@) == references_remove(references_view(old(vs)@), id@),
{
    let ghost orig = vs@;
    let mut kept: Vec<NodeValue> = Vec::new();
    while vs.len() > 0
        invariant
            vs@.len() <= orig.len(),
            vs@ == orig.skip(orig.len() - vs@.len()),
            all_references(orig),
            all_references(kept@),
            references_view(kept@) == references_remove(
                references_view(orig.take(orig.len() - vs@.len())),
                id@,
            ),
        decreases vs@.len(),
    {
        let ghost done = orig.len() - vs@.len();
        let v = vs.remove(0);
        assert(v == orig[done]);
        assert(v is ShapeID);
        assert(vs@ =~= orig.skip(done + 1));
        assert(references_view(orig.take(done + 1)) =~= references_view(orig.take(done)).push(
            reference_view(v),
        ));
        proof {
            references_view(orig.take(done)).lemma_filter_push(
                reference_view(v),
                |r: Seq<char>| r != id@,
            );
        }
        let keep = match &v {
            NodeValue::ShapeID(x) => !(*x == *id),
            _ => true,
        };
        if keep {
            let ghost kept_before = kept@;
            kept.push(v);
            assert(references_view(kept@) =~= references_view(kept_before).push(reference_view(v)));
        }
    }
    assert(orig.take(orig.len() as int) =~= orig);
    *vs = kept;
}

} // verus!
