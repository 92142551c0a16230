//! Laws that hold of the accessors of every shape, stated over the views that the
//! accessors' contracts use.

use crate::identity::ShapeID;
use crate::services::{OperationView, ResourceView, ServiceView};
use crate::values::{entries_insert, has_key, references_remove, unique_keys};
use vstd::prelude::*;

verus! {

/// Reading a member right after setting it gives back the value set, for the
/// version of a service and for every optional reference of an operation or a
/// resource.
pub proof fn lemma_set_then_get(s: ServiceView, o: OperationView, r: ResourceView, x: Seq<char>)
    ensures
        (ServiceView { version: Some(x), ..s }).version == Some(x),
        (OperationView { input: Some(x), ..o }).input == Some(x),
        (OperationView { output: Some(x), ..o }).output == Some(x),
        (ResourceView { create: Some(x), ..r }).create == Some(x),
        (ResourceView { put: Some(x), ..r }).put == Some(x),
        (ResourceView { read: Some(x), ..r }).read == Some(x),
        (ResourceView { update: Some(x), ..r }).update == Some(x),
        (ResourceView { delete: Some(x), ..r }).delete == Some(x),
        (ResourceView { list: Some(x), ..r }).list == Some(x),
{
}

/// Unsetting an optional reference twice leaves it absent, as once does, and the
/// rest of the shape as it was.
pub proof fn lemma_unset_twice(o: OperationView, r: ResourceView)
    ensures
        (OperationView { input: None, ..(OperationView { input: None, ..o }) }) == (OperationView {
            input: None,
            ..o
        }),
        (OperationView { input: None, ..(OperationView { input: None, ..o }) }).input is None,
        (OperationView { output: None, ..(OperationView { output: None, ..o }) }).output is None,
        (ResourceView { create: None, ..(ResourceView { create: None, ..r }) }).create is None,
        (ResourceView { put: None, ..(ResourceView { put: None, ..r }) }).put is None,
        (ResourceView { read: None, ..(ResourceView { read: None, ..r }) }).read is None,
        (ResourceView { update: None, ..(ResourceView { update: None, ..r }) }).update is None,
        (ResourceView { delete: None, ..(ResourceView { delete: None, ..r }) }).delete is None,
        (ResourceView { list: None, ..(ResourceView { list: None, ..r }) }).list is None,
{
}

/// Adding `a` and then `b` to a list leaves them at its end in that order.
pub proof fn lemma_add_keeps_order(items: Seq<Seq<char>>, a: Seq<char>, b: Seq<char>)
    ensures
        items.push(a).push(b) == items + seq![a, b],
        Seq::<Seq<char>>::empty().push(a).push(b) == seq![a, b],
{
    assert(items.push(a).push(b) =~= items + seq![a, b]);
    assert(Seq::<Seq<char>>::empty().push(a).push(b) =~= seq![a, b]);
}

/// Appending a batch `[a, b]` to a list is adding `a` and then `b`: the batch
/// ends the list, in its order.
pub proof fn lemma_append_keeps_order(items: Seq<Seq<char>>, a: ShapeID, b: ShapeID)
    ensures
        items + seq![a, b].map_values(|id: ShapeID| id@) == items.push(a@).push(b@),
{
    assert(items + seq![a, b].map_values(|id: ShapeID| id@) =~= items.push(a@).push(b@));
}

/// Removing a shape from a list takes out every occurrence of it and keeps the
/// others in order: after adding `x`, `y` and `x`, removing `x` leaves `y` at the
/// end of what remains, and of an empty list only `[y]`.
pub proof fn lemma_remove_takes_all(items: Seq<Seq<char>>, x: Seq<char>, y: Seq<char>)
    requires
        x != y,
    ensures
        references_remove(items.push(x).push(y).push(x), x) == references_remove(items, x).push(
            y,
        ),
        references_remove(Seq::<Seq<char>>::empty().push(x).push(y).push(x), x) == seq![y],
        forall|i: int|
            0 <= i < references_remove(items, x).len() ==> #[trigger] references_remove(items, x)[i]
                != x,
{
    let p = |r: Seq<char>| r != x;
    broadcast use Seq::lemma_filter_push;

    assert(items.push(x).push(y).push(x).filter(p) == items.filter(p).push(y));
    let e = Seq::<Seq<char>>::empty();
    assert(e.filter(p) =~= e) by {
        reveal(Seq::filter);
    }
    assert(e.push(x).push(y).push(x).filter(p) == e.filter(p).push(y));
    assert(e.filter(p).push(y) =~= seq![y]);
    assert forall|i: int| 0 <= i < items.filter(p).len() implies #[trigger] items.filter(p)[i] != x by {
        items.filter_lemma(p);
    }
}

/// Binding an identifier to one shape and then to another leaves exactly one
/// entry for it, holding the second shape, as a single binding to it would.
pub proof fn lemma_identifier_overwrite(
    entries: Seq<(Seq<char>, Seq<char>)>,
    id: Seq<char>,
    first: Seq<char>,
    second: Seq<char>,
)
    requires
        unique_keys(entries),
    ensures
        entries_insert(entries_insert(entries, id, first), id, second) == entries_insert(
            entries,
            id,
            second,
        ),
        exists|i: int|
            0 <= i < entries_insert(entries, id, second).len() && entries_insert(
                entries,
                id,
                second,
            )[i] == (id, second) && forall|j: int|
                0 <= j < entries_insert(entries, id, second).len() && j != i ==> (
                #[trigger] entries_insert(entries, id, second)[j]).0 != id,
{
    let once = entries_insert(entries, id, first);
    let last = entries_insert(entries, id, second);
    if has_key(entries, id) {
        let i = choose|i: int| 0 <= i < entries.len() && (#[trigger] entries[i]).0 == id;
        assert(once == entries.update(i, (id, first)));
        assert(once[i].0 == id);
        let c = choose|c: int| 0 <= c < once.len() && (#[trigger] once[c]).0 == id;
        assert(has_key(once, id));
        if c != i {
            assert(entries[c].0 == id);
        }
        assert(c == i);
        assert(entries_insert(once, id, second) =~= last);
        assert(last[i] == (id, second));
        assert forall|j: int| 0 <= j < last.len() && j != i implies (#[trigger] last[j]).0 != id by {
            assert(last[j] == entries[j]);
        }
    } else {
        let n = entries.len() as int;
        assert(once == entries.push((id, first)));
        assert(once[n].0 == id);
        assert(has_key(once, id));
        let c = choose|c: int| 0 <= c < once.len() && (#[trigger] once[c]).0 == id;
        if c != n {
            assert(once[c] == entries[c]);
            assert(has_key(entries, id));
        }
        assert(entries_insert(once, id, second) =~= last);
        assert(last[n] == (id, second));
        assert forall|j: int| 0 <= j < last.len() && j != n implies (#[trigger] last[j]).0 != id by {
            assert(last[j] == entries[j]);
            if last[j].0 == id {
                assert(has_key(entries, id));
            }
        }
    }
}

} // verus!
