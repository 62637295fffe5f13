//! A map from identifiers to entities that keeps its entries in the order in
//! which they were added.

use vstd::prelude::*;

verus! {

/// No identifier occurs twice among `entries`.
pub open spec fn distinct_keys<T>(entries: Seq<(Seq<char>, T)>) -> bool {
    forall|i: int, j: int| 0 <= i < j < entries.len() ==> entries[i].0 != entries[j].0
}

/// Some entry of `entries` has the identifier `key`.
pub open spec fn has_key<T>(entries: Seq<(Seq<char>, T)>, key: Seq<char>) -> bool {
    exists|i: int| 0 <= i < entries.len() && #[trigger] entries[i].0 == key
}

/// The place of an entry with the identifier `key`.
pub open spec fn place_of<T>(entries: Seq<(Seq<char>, T)>, key: Seq<char>) -> int {
    choose|i: int| 0 <= i < entries.len() && #[trigger] entries[i].0 == key
}

/// The mapping that a list of entries stands for.
pub open spec fn as_map<T>(entries: Seq<(Seq<char>, T)>) -> Map<Seq<char>, T> {
    Map::new(
        |key: Seq<char>| has_key(entries, key),
        |key: Seq<char>| entries[place_of(entries, key)].1,
    )
}

/// Each entry of a list without repeated identifiers is what the mapping holds
/// under its identifier.
pub proof fn lemma_as_map_entry<T>(entries: Seq<(Seq<char>, T)>, i: int)
    requires
        distinct_keys(entries),
        0 <= i < entries.len(),
    ensures
        as_map(entries).contains_key(entries[i].0),
        as_map(entries)[entries[i].0] == entries[i].1,
{
    let key = entries[i].0;
    assert(has_key(entries, key));
    let p = place_of(entries, key);
    assert(0 <= p < entries.len() && entries[p].0 == key);
    assert(p == i);
}

/// A new identifier added at the end adds one binding to the mapping.
pub proof fn lemma_as_map_push<T>(entries: Seq<(Seq<char>, T)>, key: Seq<char>, value: T)
    requires
        distinct_keys(entries),
        !has_key(entries, key),
    ensures
        distinct_keys(entries.push((key, value))),
        as_map(entries.push((key, value))) == as_map(entries).insert(key, value),
{
    let grown = entries.push((key, value));
    assert forall|i: int, j: int| 0 <= i < j < grown.len() implies grown[i].0 != grown[j].0 by {
        if j == entries.len() {
            assert(entries[i].0 == grown[i].0);
        }
    }
    assert forall|k: Seq<char>| has_key(grown, k) <==> (k == key || has_key(entries, k)) by {
        if has_key(grown, k) {
            let p = place_of(grown, k);
            if p < entries.len() {
                assert(entries[p].0 == k);
            }
        }
        if k == key {
            assert(grown[entries.len() as int].0 == k);
        }
        if has_key(entries, k) {
            let p = place_of(entries, k);
            assert(grown[p].0 == k);
        }
    }
    assert forall|k: Seq<char>| #[trigger] has_key(grown, k) implies as_map(grown)[k] == as_map(
        entries,
    ).insert(key, value)[k] by {
        let p = place_of(grown, k);
        lemma_as_map_entry(grown, p);
        if p < entries.len() {
            assert(entries[p].0 == k);
            lemma_as_map_entry(entries, p);
        }
    }
    assert(as_map(grown) =~= as_map(entries).insert(key, value));
}

/// Replacing the entity of one entry rebinds its identifier in the mapping.
pub proof fn lemma_as_map_update<T>(entries: Seq<(Seq<char>, T)>, i: int, value: T)
    requires
        distinct_keys(entries),
        0 <= i < entries.len(),
    ensures
        distinct_keys(entries.update(i, (entries[i].0, value))),
        as_map(entries.update(i, (entries[i].0, value))) == as_map(entries).insert(
            entries[i].0,
            value,
        ),
{
    let key = entries[i].0;
    let changed = entries.update(i, (key, value));
    assert forall|a: int, b: int| 0 <= a < b < changed.len() implies changed[a].0 != changed[b].0 by {
        assert(changed[a].0 == entries[a].0);
        assert(changed[b].0 == entries[b].0);
    }
    assert forall|k: Seq<char>| has_key(changed, k) <==> has_key(entries, k) by {
        if has_key(changed, k) {
            let p = place_of(changed, k);
            assert(entries[p].0 == k);
        }
        if has_key(entries, k) {
            let p = place_of(entries, k);
            assert(changed[p].0 == k);
        }
    }
    lemma_as_map_entry(entries, i);
    assert forall|k: Seq<char>| #[trigger] has_key(changed, k) implies as_map(changed)[k] == as_map(
        entries,
    ).insert(key, value)[k] by {
        let p = place_of(changed, k);
        lemma_as_map_entry(changed, p);
        assert(entries[p].0 == k);
        lemma_as_map_entry(entries, p);
    }
    assert(as_map(changed) =~= as_map(entries).insert(key, value));
}

/// Taking one entry out unbinds its identifier in the mapping.
pub proof fn lemma_as_map_remove<T>(entries: Seq<(Seq<char>, T)>, i: int)
    requires
        distinct_keys(entries),
        0 <= i < entries.len(),
    ensures
        distinct_keys(entries.remove(i)),
        as_map(entries.remove(i)) == as_map(entries).remove(entries[i].0),
{
    let key = entries[i].0;
    let rest = entries.remove(i);
    assert forall|a: int, b: int| 0 <= a < b < rest.len() implies rest[a].0 != rest[b].0 by {
        let a0 = if a < i { a } else { a + 1 };
        let b0 = if b < i { b } else { b + 1 };
        assert(rest[a] == entries[a0]);
        assert(rest[b] == entries[b0]);
    }
    assert forall|k: Seq<char>| has_key(rest, k) <==> (k != key && has_key(entries, k)) by {
        if has_key(rest, k) {
            let p = place_of(rest, k);
            let p0 = if p < i { p } else { p + 1 };
            assert(rest[p] == entries[p0]);
            assert(entries[p0].0 == k);
        }
        if k != key && has_key(entries, k) {
            let p = place_of(entries, k);
            let q = if p < i { p } else { p - 1 };
            assert(rest[q] == entries[p]);
            assert(rest[q].0 == k);
        }
    }
    assert forall|k: Seq<char>| #[trigger] has_key(rest, k) implies as_map(rest)[k] == as_map(
        entries,
    ).remove(key)[k] by {
        let p = place_of(rest, k);
        let p0 = if p < i { p } else { p + 1 };
        lemma_as_map_entry(rest, p);
        assert(rest[p] == entries[p0]);
        lemma_as_map_entry(entries, p0);
    }
    assert(as_map(rest) =~= as_map(entries).remove(key));
}

/// A list without repeated identifiers stands for a finite mapping with as
/// many bindings as the list has entries.
pub proof fn lemma_as_map_len<T>(entries: Seq<(Seq<char>, T)>)
    requires
        distinct_keys(entries),
    ensures
        as_map(entries).dom().finite(),
        as_map(entries).dom().len() == entries.len(),
    decreases entries.len(),
{
    if entries.len() == 0 {
        assert(as_map(entries).dom() =~= Set::<Seq<char>>::empty());
    } else {
        let front = entries.drop_last();
        let last = entries.last();
        assert(entries =~= front.push(last));
        assert(distinct_keys(front)) by {
            assert forall|i: int, j: int| 0 <= i < j < front.len() implies front[i].0 != front[j].0 by {
                assert(front[i] == entries[i]);
                assert(front[j] == entries[j]);
            }
        }
        assert(!has_key(front, last.0)) by {
            if has_key(front, last.0) {
                let p = place_of(front, last.0);
                assert(front[p] == entries[p]);
                assert(entries[entries.len() - 1].0 == last.0);
            }
        }
        lemma_as_map_len(front);
        lemma_as_map_push(front, last.0, last.1);
        assert(as_map(entries).dom() =~= as_map(front).dom().insert(last.0));
        assert(!as_map(front).dom().contains(last.0));
    }
}

/// The mapping `bindings` after the entities of `created` were added to it
/// one after the other, each under its identifier.
pub open spec fn with_all<T>(bindings: Map<Seq<char>, T>, created: Seq<(Seq<char>, T)>) -> Map<
    Seq<char>,
    T,
>
    decreases created.len(),
{
    if created.len() == 0 {
        bindings
    } else {
        with_all(bindings, created.drop_last()).insert(created.last().0, created.last().1)
    }
}

/// Entities created one after the other under identifiers that differ from
/// each other and from those bound before are all there afterwards: each is
/// found under its own identifier, what was bound before is found as before,
/// and the mapping has grown by as many bindings as entities were created.
pub proof fn lemma_creations_all_resolve<T>(
    bindings: Map<Seq<char>, T>,
    created: Seq<(Seq<char>, T)>,
)
    requires
        bindings.dom().finite(),
        distinct_keys(created),
        forall|i: int| 0 <= i < created.len() ==> !bindings.contains_key(#[trigger] created[i].0),
    ensures
        with_all(bindings, created).dom().finite(),
        with_all(bindings, created).dom().len() == bindings.dom().len() + created.len(),
        forall|i: int|
            0 <= i < created.len() ==> with_all(bindings, created).contains_key(
                #[trigger] created[i].0,
            ) && with_all(bindings, created)[created[i].0] == created[i].1,
        forall|key: Seq<char>| #[trigger]
            bindings.contains_key(key) ==> with_all(bindings, created).contains_key(key)
                && with_all(bindings, created)[key] == bindings[key],
        forall|key: Seq<char>| #[trigger]
            with_all(bindings, created).contains_key(key) ==> bindings.contains_key(key)
                || has_key(created, key),
    decreases created.len(),
{
    if created.len() > 0 {
        let front = created.drop_last();
        let last = created.last();
        assert forall|i: int| 0 <= i < front.len() implies !bindings.contains_key(
            #[trigger] front[i].0,
        ) by {
            assert(front[i] == created[i]);
        }
        assert(distinct_keys(front)) by {
            assert forall|i: int, j: int| 0 <= i < j < front.len() implies front[i].0 != front[j].0 by {
                assert(front[i] == created[i]);
                assert(front[j] == created[j]);
            }
        }
        lemma_creations_all_resolve(bindings, front);
        let before = with_all(bindings, front);
        assert(!before.contains_key(last.0)) by {
            if before.contains_key(last.0) {
                assert(created[created.len() - 1].0 == last.0);
                if has_key(front, last.0) {
                    let p = place_of(front, last.0);
                    assert(front[p] == created[p]);
                }
            }
        }
        assert forall|i: int| 0 <= i < created.len() implies with_all(bindings, created).contains_key(
            #[trigger] created[i].0,
        ) && with_all(bindings, created)[created[i].0] == created[i].1 by {
            if i < front.len() {
                assert(front[i] == created[i]);
            }
        }
        assert forall|key: Seq<char>| #[trigger]
            with_all(bindings, created).contains_key(key) implies bindings.contains_key(key)
            || has_key(created, key) by {
            if key == last.0 {
                assert(created[created.len() - 1].0 == key);
            } else if !bindings.contains_key(key) {
                let p = place_of(front, key);
                assert(front[p] == created[p]);
            }
        }
    }
}

spec fn paired_up<V: View>(keys: Seq<String>, values: Seq<V>) -> Seq<(Seq<char>, V::V)> {
    Seq::new(keys.len(), |i: int| (keys[i]@, values[i]@))
}

/// Whatever entity takes the place of the one at `i`, no identifier repeats
/// and exactly the binding of that entry's identifier changes.
proof fn lemma_paired_up_update<V: View>(keys: Seq<String>, values: Seq<V>, i: int)
    requires
        keys.len() == values.len(),
        distinct_keys(paired_up(keys, values)),
        0 <= i < keys.len(),
    ensures
        forall|value: V|
            #![trigger values.update(i, value)]
            {
                let changed = paired_up(keys, values.update(i, value));
                &&& changed == paired_up(keys, values).update(i, (keys[i]@, value@))
                &&& distinct_keys(changed)
                &&& as_map(changed) == as_map(paired_up(keys, values)).insert(keys[i]@, value@)
            },
{
    assert forall|value: V| #![trigger values.update(i, value)]
        {
            let changed = paired_up(keys, values.update(i, value));
            &&& changed == paired_up(keys, values).update(i, (keys[i]@, value@))
            &&& distinct_keys(changed)
            &&& as_map(changed) == as_map(paired_up(keys, values)).insert(keys[i]@, value@)
        } by {
        assert(paired_up(keys, values.update(i, value)) =~= paired_up(keys, values).update(
            i,
            (keys[i]@, value@),
        ));
        lemma_as_map_update(paired_up(keys, values), i, value@);
    }
}

/// A map from identifiers to entities. An identifier is bound at most once;
/// the entries stay in the order in which their identifiers were first bound.
#[derive(Debug)]
pub struct IdMap<V: View> {
    keys: Vec<String>,
    values: Vec<V>,
}

impl<V: View> View for IdMap<V> {
    type V = Map<Seq<char>, V::V>;

    /// The mapping from each identifier to its entity.
    open spec fn view(&self) -> Map<Seq<char>, V::V> {
        as_map(self.entries())
    }
}

impl<V: View> IdMap<V> {
    /// The entries in stored order, each an identifier and its entity.
    pub closed spec fn entries(&self) -> Seq<(Seq<char>, V::V)> {
        paired_up(self.keys@, self.values@)
    }

    /// Every identifier has its entity.
    pub closed spec fn paired(&self) -> bool {
        self.keys@.len() == self.values@.len()
    }

    /// No identifier is bound twice.
    #[verifier::type_invariant]
    pub open spec fn wf(&self) -> bool {
        self.paired() && distinct_keys(self.entries())
    }

    /// A map without entries.
    pub fn new() -> (map: Self)
        ensures
            map.entries() == Seq::<(Seq<char>, V::V)>::empty(),
            map@ == Map::<Seq<char>, V::V>::empty(),
    {
        let map = IdMap { keys: Vec::new(), values: Vec::new() };
        assert(map.entries() =~= Seq::<(Seq<char>, V::V)>::empty());
        assert(map@ =~= Map::<Seq<char>, V::V>::empty());
        map
    }

    /// The number of entries.
    pub fn len(&self) -> (n: usize)
        ensures
            n == self.entries().len(),
            self@.dom().finite(),
            n == self@.len(),
    {
        proof {
            use_type_invariant(self);
            lemma_as_map_len(self.entries());
        }
        self.keys.len()
    }

    /// The identifier of the entry at place `i`.
    pub fn key_at(&self, i: usize) -> (key: &String)
        requires
            i < self.entries().len(),
        ensures
            key@ == self.entries()[i as int].0,
    {
        &self.keys[i]
    }

    /// The entity of the entry at place `i`.
    pub fn value_at(&self, i: usize) -> (value: &V)
        requires
            i < self.entries().len(),
        ensures
            value@ == self.entries()[i as int].1,
    {
        proof {
            use_type_invariant(self);
        }
        &self.values[i]
    }

    fn place(&self, key: &String) -> (place: Option<usize>)
        ensures
            match place {
                Some(i) => i < self.entries().len() && self.entries()[i as int].0 == key@
                    && place_of(self.entries(), key@) == i,
                None => !has_key(self.entries(), key@),
            },
    {
        let mut i: usize = 0;
        while i < self.keys.len()
            invariant
                i <= self.keys@.len(),
                forall|j: int| 0 <= j < i ==> self.entries()[j].0 != key@,
            decreases self.keys@.len() - i,
        {
            if self.keys[i] == *key {
                proof {
                    use_type_invariant(self);
                    lemma_as_map_entry(self.entries(), i as int);
                }
                return Some(i);
            }
            i += 1;
        }
        None
    }

    /// Whether `key` is bound.
    pub fn contains_key(&self, key: &String) -> (found: bool)
        ensures
            found == self@.contains_key(key@),
    {
        self.place(key).is_some()
    }

    /// The entity bound to `key`, if there is one.
    pub fn get(&self, key: &String) -> (found: Option<&V>)
        ensures
            match found {
                Some(value) => self@.contains_key(key@) && value@ == self@[key@],
                None => !self@.contains_key(key@),
            },
    {
        proof {
            use_type_invariant(self);
        }
        match self.place(key) {
            Some(i) => {
                proof {
                    lemma_as_map_entry(self.entries(), i as int);
                }
                Some(&self.values[i])
            },
            None => None,
        }
    }

    /// The entity bound to `key`, if there is one, for changing in place.
    pub fn get_mut(&mut self, key: &String) -> (found: Option<&mut V>)
        ensures
            match found {
                Some(value) => old(self)@.contains_key(key@) && value@ == old(self)@[key@]
                    && final(self).entries() == old(self).entries().update(
                    place_of(old(self).entries(), key@),
                    (key@, final(value)@),
                ) && final(self)@ == old(self)@.insert(key@, final(value)@),
                None => !old(self)@.contains_key(key@) && *final(self) == *old(self),
            },
    {
        proof {
            use_type_invariant(&*self);
        }
        match self.place(key) {
            Some(i) => {
                proof {
                    lemma_as_map_entry(self.entries(), i as int);
                    lemma_paired_up_update(self.keys@, self.values@, i as int);
                }
                let value = &mut self.values[i];
                Some(value)
            },
            None => None,
        }
    }

    /// Binds `key` to `value`. An earlier binding of `key` is replaced where
    /// it stands; a new one goes to the end.
    pub fn insert(&mut self, key: String, value: V)
        ensures
            final(self)@ == old(self)@.insert(key@, value@),
            final(self).entries() == if has_key(old(self).entries(), key@) {
                old(self).entries().update(place_of(old(self).entries(), key@), (key@, value@))
            } else {
                old(self).entries().push((key@, value@))
            },
    {
        proof {
            use_type_invariant(&*self);
        }
        match self.place(&key) {
            Some(i) => {
                proof {
                    lemma_paired_up_update(self.keys@, self.values@, i as int);
                }
                self.values[i] = value;
            },
            None => {
                proof {
                    lemma_as_map_push(self.entries(), key@, value@);
                }
                let mut taken: IdMap<V> = IdMap::new();
                core::mem::swap(self, &mut taken);
                let IdMap { mut keys, mut values } = taken;
                keys.push(key);
                values.push(value);
                assert(paired_up(keys@, values@) =~= old(self).entries().push((key@, value@)));
                *self = IdMap { keys, values };
            },
        }
    }

    /// Unbinds `key` and hands back its entity, if it was bound. The other
    /// entries keep their order.
    pub fn remove(&mut self, key: &String) -> (removed: Option<V>)
        ensures
            final(self)@ == old(self)@.remove(key@),
            match removed {
                Some(value) => old(self)@.contains_key(key@) && value@ == old(self)@[key@]
                    && final(self).entries() == old(self).entries().remove(
                    place_of(old(self).entries(), key@),
                ),
                None => !old(self)@.contains_key(key@) && *final(self) == *old(self),
            },
    {
        proof {
            use_type_invariant(&*self);
        }
        match self.place(key) {
            Some(i) => {
                proof {
                    lemma_as_map_entry(self.entries(), i as int);
                    lemma_as_map_remove(self.entries(), i as int);
                }
                let mut taken: IdMap<V> = IdMap::new();
                core::mem::swap(self, &mut taken);
                let IdMap { mut keys, mut values } = taken;
                keys.remove(i);
                let value = values.remove(i);
                assert(paired_up(keys@, values@) =~= old(self).entries().remove(i as int));
                *self = IdMap { keys, values };
                Some(value)
            },
            None => {
                assert(self@.remove(key@) =~= self@);
                None
            },
        }
    }
}

} // verus!
