//! The lists that the selection screens offer: one choice for each entity,
//! ordered by label, and two fixed choices at the end.

use crate::id_map::{
    as_map, distinct_keys, has_key, lemma_as_map_entry, lemma_as_map_len, lemma_as_map_remove,
    place_of, IdMap,
};
use crate::text::{
    le, lemma_lex_le_antisymmetric, lemma_lex_le_reflexive, lemma_lex_le_total,
    lemma_lex_le_transitive, lex_le,
};
use crate::utility::LabeledItem;
use vstd::prelude::*;
use vstd::string::*;

verus! {

/// The texts of a list of strings.
pub open spec fn texts(strings: Seq<String>) -> Seq<Seq<char>> {
    Seq::new(strings.len(), |i: int| strings[i]@)
}

/// The place `j` stands somewhere in `order`.
pub open spec fn occurs(order: Seq<usize>, j: int) -> bool {
    exists|k: int| 0 <= k < order.len() && #[trigger] order[k] == j
}

/// `order` arranges the places `0` to `n - 1` of `labels` so that the labels
/// ascend, places with the same label staying in their order.
pub open spec fn is_order(order: Seq<usize>, labels: Seq<Seq<char>>, n: int) -> bool {
    &&& order.len() == n
    &&& forall|k: int| 0 <= k < n ==> 0 <= #[trigger] order[k] < n
    &&& forall|k1: int, k2: int| 0 <= k1 < k2 < n ==> order[k1] != order[k2]
    &&& forall|j: int| 0 <= j < n ==> #[trigger] occurs(order, j)
    &&& forall|k1: int, k2: int|
        0 <= k1 < k2 < n ==> lex_le(labels[order[k1] as int], labels[order[k2] as int])
    &&& forall|k1: int, k2: int|
        0 <= k1 < k2 < n && labels[order[k1] as int] == labels[order[k2] as int] ==> order[k1]
            < order[k2]
}

/// The places of `labels` in the order in which a list shows them: by
/// ascending label, equal labels in the order in which they stand.
pub fn sorted_order(labels: &Vec<String>) -> (order: Vec<usize>)
    ensures
        is_order(order@, texts(labels@), labels@.len() as int),
{
    let ghost all = texts(labels@);
    let mut order: Vec<usize> = Vec::new();
    let mut i: usize = 0;
    while i < labels.len()
        invariant
            i <= labels@.len(),
            all == texts(labels@),
            is_order(order@, all, i as int),
        decreases labels@.len() - i,
    {
        let mut place: usize = order.len();
        let mut searching: bool = true;
        while searching
            invariant
                i < labels@.len(),
                all == texts(labels@),
                is_order(order@, all, i as int),
                place <= order@.len(),
                forall|k: int| place <= k < order@.len() ==> !lex_le(all[order@[k] as int], all[i as int]),
                !searching ==> place == 0 || lex_le(all[order@[place - 1] as int], all[i as int]),
            decreases place + (if searching { 1int } else { 0int }),
        {
            if place == 0 {
                searching = false;
            } else if le(labels[order[place - 1]].as_str(), labels[i].as_str()) {
                searching = false;
            } else {
                place -= 1;
            }
        }
        let ghost before = order@;
        order.insert(place, i);
        proof {
            let after = order@;
            let p = place as int;
            before.insert_ensures(p, i);
            assert forall|k: int| 0 <= k < i + 1 implies 0 <= #[trigger] after[k] < i + 1 by {
                if k < p {
                    assert(after[k] == before[k]);
                } else if k > p {
                    assert(after[k] == before[k - 1]);
                }
            }
            assert forall|j: int| 0 <= j < i + 1 implies #[trigger] occurs(after, j) by {
                if j == i {
                    assert(after[p] == j);
                } else {
                    assert(occurs(before, j));
                    let k0 = choose|k: int| 0 <= k < before.len() && #[trigger] before[k] == j;
                    if k0 < p {
                        assert(after[k0] == j);
                    } else {
                        assert(after[k0 + 1] == before[k0]);
                    }
                }
            }
            assert forall|k1: int, k2: int| 0 <= k1 < k2 < i + 1 implies after[k1] != after[k2]
                && lex_le(all[after[k1] as int], all[after[k2] as int]) && (all[after[k1] as int]
                == all[after[k2] as int] ==> after[k1] < after[k2]) by {
                let a1 = if k1 < p { k1 } else { k1 - 1 };
                let a2 = if k2 < p { k2 } else { k2 - 1 };
                if k1 != p {
                    assert(after[k1] == before[a1]);
                }
                if k2 != p {
                    assert(after[k2] == before[a2]);
                }
                if k2 == p {
                    // an earlier place, then the new one
                    assert(lex_le(all[before[p - 1] as int], all[i as int]));
                    if k1 < p - 1 {
                        lemma_lex_le_transitive(
                            all[before[k1] as int],
                            all[before[p - 1] as int],
                            all[i as int],
                        );
                    }
                } else if k1 == p {
                    // the new place, then a later one
                    assert(!lex_le(all[before[a2] as int], all[i as int]));
                    lemma_lex_le_total(all[before[a2] as int], all[i as int]);
                    lemma_lex_le_reflexive(all[i as int]);
                }
            }
        }
        i += 1;
    }
    order
}

/// What a choice of a selection screen stands for.
#[derive(Debug, Clone, PartialEq, Eq)]
pub enum Selection {
    /// The entity with this identifier.
    Entity(String),
    /// Making a new entity.
    New,
    /// Leaving the screen towards the parent; at the top, leaving the tool.
    Back,
}

/// The identifier that a choice stands for, and its label.
pub open spec fn row_of(choice: LabeledItem<Selection>) -> (Seq<char>, Seq<char>) {
    match choice.item {
        Selection::Entity(id) => (id@, choice.label@),
        _ => (Seq::empty(), choice.label@),
    }
}

/// The identifiers and labels of a list of choices.
pub open spec fn rows_of(choices: Seq<LabeledItem<Selection>>) -> Seq<(Seq<char>, Seq<char>)> {
    Seq::new(choices.len(), |i: int| row_of(choices[i]))
}

/// The labels of `rows` ascend.
pub open spec fn ascending(rows: Seq<(Seq<char>, Seq<char>)>) -> bool {
    forall|i: int, j: int| 0 <= i < j < rows.len() ==> lex_le(rows[i].1, rows[j].1)
}

/// `rows` lists `labels`: each identifier once, with its label, by ascending
/// label.
pub open spec fn lists(rows: Seq<(Seq<char>, Seq<char>)>, labels: Map<Seq<char>, Seq<char>>) -> bool {
    &&& distinct_keys(rows)
    &&& as_map(rows) == labels
    &&& ascending(rows)
}

/// `options` is the list of a selection screen for the entities whose labels
/// are `labels`: one choice for each of them, by ascending label, then the
/// choice to make a new one and the choice to go back, under the two labels
/// given.
pub open spec fn is_menu(
    options: Seq<LabeledItem<Selection>>,
    labels: Map<Seq<char>, Seq<char>>,
    new_label: Seq<char>,
    back_label: Seq<char>,
) -> bool {
    let n = options.len() - 2;
    &&& n >= 0
    &&& forall|i: int| 0 <= i < n ==> (#[trigger] options[i]).item is Entity
    &&& lists(rows_of(options.take(n)), labels)
    &&& options[n].label@ == new_label
    &&& options[n].item == Selection::New
    &&& options[n + 1].label@ == back_label
    &&& options[n + 1].item == Selection::Back
}

/// Rows with the same label stand in the order in which `entries` holds
/// their identifiers.
pub open spec fn ties_in_order<T>(
    rows: Seq<(Seq<char>, Seq<char>)>,
    entries: Seq<(Seq<char>, T)>,
) -> bool {
    forall|i: int, j: int|
        0 <= i < j < rows.len() && rows[i].1 == rows[j].1 ==> place_of(entries, rows[i].0)
            < place_of(entries, rows[j].0)
}

/// The identifiers of `entries`, each with the label that stands at its place
/// in `labels`.
pub open spec fn labelled<T>(entries: Seq<(Seq<char>, T)>, labels: Seq<Seq<char>>) -> Seq<
    (Seq<char>, Seq<char>),
> {
    Seq::new(entries.len(), |i: int| (entries[i].0, labels[i]))
}

/// Entries taken in another order stand for the same mapping.
pub proof fn lemma_as_map_rearranged<T>(
    entries: Seq<(Seq<char>, T)>,
    rows: Seq<(Seq<char>, T)>,
    order: Seq<usize>,
)
    requires
        distinct_keys(entries),
        rows.len() == entries.len(),
        order.len() == entries.len(),
        forall|k: int| 0 <= k < order.len() ==> 0 <= #[trigger] order[k] < entries.len(),
        forall|k1: int, k2: int| 0 <= k1 < k2 < order.len() ==> order[k1] != order[k2],
        forall|j: int| 0 <= j < entries.len() ==> #[trigger] occurs(order, j),
        forall|k: int| 0 <= k < rows.len() ==> #[trigger] rows[k] == entries[order[k] as int],
    ensures
        distinct_keys(rows),
        as_map(rows) == as_map(entries),
{
    assert forall|k1: int, k2: int| 0 <= k1 < k2 < rows.len() implies rows[k1].0 != rows[k2].0 by {
        assert(rows[k1] == entries[order[k1] as int]);
        assert(rows[k2] == entries[order[k2] as int]);
        assert(order[k1] != order[k2]);
    }
    assert forall|key: Seq<char>| has_key(rows, key) <==> has_key(entries, key) by {
        if has_key(rows, key) {
            let k = place_of(rows, key);
            assert(rows[k] == entries[order[k] as int]);
            assert(entries[order[k] as int].0 == key);
        }
        if has_key(entries, key) {
            let j = place_of(entries, key);
            assert(occurs(order, j));
            let k = choose|k: int| 0 <= k < order.len() && #[trigger] order[k] == j;
            assert(rows[k] == entries[order[k] as int]);
            assert(rows[k].0 == key);
        }
    }
    assert forall|key: Seq<char>| #[trigger] has_key(rows, key) implies as_map(rows)[key] == as_map(
        entries,
    )[key] by {
        let k = place_of(rows, key);
        lemma_as_map_entry(rows, k);
        assert(rows[k] == entries[order[k] as int]);
        lemma_as_map_entry(entries, order[k] as int);
    }
    assert(as_map(rows) =~= as_map(entries));
}

/// Labels computed entity by entity stand for the mapping from each
/// identifier to the label of its entity.
pub proof fn lemma_as_map_labelled<T>(
    entries: Seq<(Seq<char>, T)>,
    labels: Seq<Seq<char>>,
    label_of: spec_fn(T) -> Seq<char>,
)
    requires
        distinct_keys(entries),
        labels.len() == entries.len(),
        forall|i: int| 0 <= i < entries.len() ==> #[trigger] labels[i] == label_of(entries[i].1),
    ensures
        distinct_keys(labelled(entries, labels)),
        as_map(labelled(entries, labels)) == as_map(entries).map_values(label_of),
{
    let rows = labelled(entries, labels);
    assert forall|key: Seq<char>| has_key(rows, key) <==> has_key(entries, key) by {
        if has_key(rows, key) {
            let k = place_of(rows, key);
            assert(entries[k].0 == key);
        }
        if has_key(entries, key) {
            let k = place_of(entries, key);
            assert(rows[k].0 == key);
        }
    }
    assert forall|key: Seq<char>| #[trigger] has_key(rows, key) implies as_map(rows)[key]
        == label_of(as_map(entries)[key]) by {
        let k = place_of(rows, key);
        lemma_as_map_entry(rows, k);
        assert(entries[k].0 == key);
        lemma_as_map_entry(entries, k);
    }
    assert(as_map(rows) =~= as_map(entries).map_values(label_of));
}

/// The list of a selection screen over the entities of `map`, which are
/// shown under `labels`, place by place.
pub fn menu<V: View>(
    map: &IdMap<V>,
    labels: &Vec<String>,
    new_label: &str,
    back_label: &str,
) -> (options: Vec<LabeledItem<Selection>>)
    requires
        labels@.len() == map.entries().len(),
    ensures
        is_menu(
            options@,
            as_map(labelled(map.entries(), texts(labels@))),
            new_label@,
            back_label@,
        ),
        ties_in_order(rows_of(options@.take(options@.len() - 2)), map.entries()),
{
    let order: Vec<usize> = sorted_order(labels);
    let ghost source = labelled(map.entries(), texts(labels@));
    let n: usize = order.len();
    let mut options: Vec<LabeledItem<Selection>> = Vec::new();
    let mut k: usize = 0;
    while k < n
        invariant
            k <= n,
            n == order@.len(),
            n == labels@.len(),
            n == map.entries().len(),
            source == labelled(map.entries(), texts(labels@)),
            is_order(order@, texts(labels@), n as int),
            options@.len() == k,
            forall|i: int| 0 <= i < k ==> (#[trigger] options@[i]).item is Entity,
            forall|i: int| 0 <= i < k ==> #[trigger] row_of(options@[i]) == source[order@[i] as int],
        decreases n - k,
    {
        let place: usize = order[k];
        let id: String = map.key_at(place).clone();
        let label: String = labels[place].clone();
        options.push(LabeledItem::from(label, Selection::Entity(id)));
        k += 1;
    }
    options.push(LabeledItem::from(String::from_str(new_label), Selection::New));
    options.push(LabeledItem::from(String::from_str(back_label), Selection::Back));
    proof {
        use_type_invariant(map);
        let rows = rows_of(options@.take(n as int));
        assert forall|i: int| 0 <= i < n implies #[trigger] rows[i] == source[order@[i] as int] by {
            assert(options@.take(n as int)[i] == options@[i]);
        }
        assert(distinct_keys(source)) by {
            assert forall|i: int, j: int| 0 <= i < j < source.len() implies source[i].0
                != source[j].0 by {
                assert(source[i].0 == map.entries()[i].0);
                assert(source[j].0 == map.entries()[j].0);
            }
        }
        lemma_as_map_rearranged(source, rows, order@);
        assert forall|i: int, j: int| 0 <= i < j < rows.len() implies lex_le(rows[i].1, rows[j].1) by {
            assert(rows[i] == source[order@[i] as int]);
            assert(rows[j] == source[order@[j] as int]);
        }
        assert forall|i: int, j: int|
            0 <= i < j < rows.len() && rows[i].1 == rows[j].1 implies place_of(
            map.entries(),
            rows[i].0,
        ) < place_of(map.entries(), rows[j].0) by {
            assert(rows[i] == source[order@[i] as int]);
            assert(rows[j] == source[order@[j] as int]);
            lemma_as_map_entry(map.entries(), order@[i] as int);
            lemma_as_map_entry(map.entries(), order@[j] as int);
            assert(has_key(map.entries(), rows[i].0));
            assert(has_key(map.entries(), rows[j].0));
        }
    }
    options
}

/// Two lists of the same labelled entities show the same labels at the same
/// places, whatever the order in which the entities came.
pub proof fn lemma_rows_labels_agree(
    a: Seq<(Seq<char>, Seq<char>)>,
    b: Seq<(Seq<char>, Seq<char>)>,
    labels: Map<Seq<char>, Seq<char>>,
)
    requires
        lists(a, labels),
        lists(b, labels),
    ensures
        a.len() == b.len(),
        forall|i: int| 0 <= i < a.len() ==> (#[trigger] a[i]).1 == b[i].1,
    decreases a.len(),
{
    lemma_as_map_len(a);
    lemma_as_map_len(b);
    if a.len() > 0 {
        let x = a[0].0;
        lemma_as_map_entry(a, 0);
        assert(has_key(b, x));
        let k = place_of(b, x);
        lemma_as_map_entry(b, k);
        assert(b[k].1 == a[0].1);
        // the first label of `b` is the least label too
        lemma_as_map_entry(b, 0);
        assert(has_key(a, b[0].0));
        let p = place_of(a, b[0].0);
        lemma_as_map_entry(a, p);
        assert(a[p].1 == b[0].1);
        if p > 0 {
            assert(lex_le(a[0].1, a[p].1));
        } else {
            lemma_lex_le_reflexive(a[0].1);
        }
        if k > 0 {
            assert(lex_le(b[0].1, b[k].1));
        } else {
            lemma_lex_le_reflexive(b[0].1);
        }
        lemma_lex_le_antisymmetric(b[0].1, b[k].1);
        let a1 = a.remove(0);
        let b1 = b.remove(k);
        lemma_as_map_remove(a, 0);
        lemma_as_map_remove(b, k);
        assert(ascending(a1)) by {
            assert forall|i: int, j: int| 0 <= i < j < a1.len() implies lex_le(a1[i].1, a1[j].1) by {
                assert(a1[i] == a[i + 1]);
                assert(a1[j] == a[j + 1]);
            }
        }
        assert(ascending(b1)) by {
            assert forall|i: int, j: int| 0 <= i < j < b1.len() implies lex_le(b1[i].1, b1[j].1) by {
                let i0 = if i < k { i } else { i + 1 };
                let j0 = if j < k { j } else { j + 1 };
                assert(b1[i] == b[i0]);
                assert(b1[j] == b[j0]);
            }
        }
        lemma_rows_labels_agree(a1, b1, labels.remove(x));
        assert forall|i: int| 0 <= i < a.len() implies (#[trigger] a[i]).1 == b[i].1 by {
            // up to place `k`, `b` shows the least label
            if 0 < i <= k {
                assert(lex_le(b[0].1, b[i].1));
                if i < k {
                    assert(lex_le(b[i].1, b[k].1));
                } else {
                    lemma_lex_le_reflexive(b[k].1);
                }
                lemma_lex_le_antisymmetric(b[0].1, b[i].1);
                if i - 1 > 0 {
                    assert(lex_le(b[0].1, b[i - 1].1));
                    assert(lex_le(b[i - 1].1, b[k].1));
                    lemma_lex_le_antisymmetric(b[0].1, b[i - 1].1);
                }
            }
            if i > 0 {
                assert(a1[i - 1] == a[i]);
                if i - 1 < k {
                    assert(b1[i - 1] == b[i - 1]);
                } else {
                    assert(b1[i - 1] == b[i]);
                }
            }
        }
    }
}

/// Listing is determined by the labels: two lists for the same labelled
/// entities show the same labels in the same order, whatever the order in
/// which the entities were added.
pub proof fn lemma_menu_labels_agree(
    a: Seq<LabeledItem<Selection>>,
    b: Seq<LabeledItem<Selection>>,
    labels: Map<Seq<char>, Seq<char>>,
    new_label: Seq<char>,
    back_label: Seq<char>,
)
    requires
        is_menu(a, labels, new_label, back_label),
        is_menu(b, labels, new_label, back_label),
    ensures
        a.len() == b.len(),
        forall|i: int| 0 <= i < a.len() ==> (#[trigger] a[i]).label@ == b[i].label@,
{
    let n = a.len() - 2;
    let m = b.len() - 2;
    let rows_a = rows_of(a.take(n));
    let rows_b = rows_of(b.take(m));
    lemma_rows_labels_agree(rows_a, rows_b, labels);
    assert forall|i: int| 0 <= i < a.len() implies (#[trigger] a[i]).label@ == b[i].label@ by {
        if i < n {
            assert(rows_a[i].1 == b.take(m)[i].label@);
            assert(a.take(n)[i] == a[i]);
            assert(rows_a[i] == row_of(a.take(n)[i]));
            assert(rows_b[i] == row_of(b.take(m)[i]));
        }
    }
}

} // verus!
