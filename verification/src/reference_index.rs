use crate::buckets::{
    file_item, filed_under, files_match, keyed, key_list, lemma_empty_files_match, lemma_filed,
    stored, total_len,
};
use crate::filters::{lemma_filter_commutes, lemma_filter_drops, lemma_filter_empty, lemma_filter_keeps_all};
use crate::id::EntityId;
use crate::reference::Reference;
use std::collections::HashMap;
use vstd::prelude::*;

verus! {

broadcast use vstd::std_specs::hash::group_hash_axioms;

/// The key under which a reference is filed by its target.
pub open spec fn target_key() -> spec_fn(Reference) -> u128 {
    |reference: Reference| reference.target@
}

/// The key under which a reference is filed by its source.
pub open spec fn source_key() -> spec_fn(Reference) -> u128 {
    |reference: Reference| reference.source@
}

/// The references, in order, that point to `entity`.
pub open spec fn pointing_to(references: Seq<Reference>, entity: EntityId) -> Seq<Reference> {
    filed_under(references, target_key(), entity@)
}

/// The references, in order, that originate from `entity`.
pub open spec fn originating_from(references: Seq<Reference>, entity: EntityId) -> Seq<Reference> {
    filed_under(references, source_key(), entity@)
}

/// Holds of the references whose identity is not `reference_id`.
pub open spec fn other_than(reference_id: EntityId) -> spec_fn(Reference) -> bool {
    |reference: Reference| reference.id != reference_id
}

/// The references, in order, whose identity is not `reference_id`.
pub open spec fn without_reference(references: Seq<Reference>, reference_id: EntityId) -> Seq<
    Reference,
> {
    references.filter(other_than(reference_id))
}

/// Whether some reference has the identity `reference_id`.
pub open spec fn has_reference(references: Seq<Reference>, reference_id: EntityId) -> bool {
    exists|i: int| 0 <= i < references.len() && #[trigger] references[i].id == reference_id
}

/// The references of `bucket`, in order, other than those with identity `reference_id`.
fn other_references(bucket: &Vec<Reference>, reference_id: EntityId) -> (rest: Vec<Reference>)
    ensures
        rest@ == without_reference(bucket@, reference_id),
{
    let mut rest: Vec<Reference> = Vec::new();
    let mut j: usize = 0;
    while j < bucket.len()
        invariant
            0 <= j <= bucket@.len(),
            rest@ == without_reference(bucket@.take(j as int), reference_id),
        decreases bucket@.len() - j,
    {
        let reference = bucket[j];
        proof {
            assert(bucket@.take(j + 1) =~= bucket@.take(j as int).push(reference));
            bucket@.take(j as int).lemma_filter_push(reference, other_than(reference_id));
        }
        if reference.id != reference_id {
            rest.push(reference);
        }
        j += 1;
    }
    assert(bucket@.take(bucket@.len() as int) =~= bucket@);
    rest
}

/// Filtering leaves a sequence as long as it was exactly when no reference has the identity.
proof fn lemma_unchanged_length(references: Seq<Reference>, reference_id: EntityId)
    ensures
        (without_reference(references, reference_id).len() == references.len()) <==> !has_reference(
            references,
            reference_id,
        ),
{
    if has_reference(references, reference_id) {
        let i = choose|i: int| 0 <= i < references.len() && #[trigger] references[i].id == reference_id;
        lemma_filter_drops(references, other_than(reference_id), i);
    } else {
        assert forall|i: int| 0 <= i < references.len() implies (other_than(reference_id))(
            #[trigger] references[i],
        ) by {
            if references[i].id == reference_id {
                assert(has_reference(references, reference_id));
            }
        }
        lemma_filter_keeps_all(references, other_than(reference_id));
    }
}

/// Removes every reference with identity `reference_id` from every list of the map,
/// dropping lists that become empty. Returns whether any list changed.
fn purge(
    map: &mut HashMap<u128, Vec<Reference>>,
    reference_id: EntityId,
    Ghost(references): Ghost<Seq<Reference>>,
    Ghost(key): Ghost<spec_fn(Reference) -> u128>,
) -> (changed: bool)
    requires
        files_match(old(map)@, references, key),
    ensures
        files_match(final(map)@, without_reference(references, reference_id), key),
        changed == has_reference(references, reference_id),
{
    let ghost before = map@;
    let ghost kept = without_reference(references, reference_id);
    let keys = key_list(map);
    let mut changed = false;
    let mut i: usize = 0;
    while i < keys.len()
        invariant
            0 <= i <= keys@.len(),
            keys@.to_set() == before.dom(),
            keys@.no_duplicates(),
            files_match(before, references, key),
            kept == without_reference(references, reference_id),
            forall|j: int|
                0 <= j < i ==> #[trigger] stored(map@, keys@[j]) == filed_under(kept, key, keys@[j]),
            forall|j: int| i <= j < keys@.len() ==> #[trigger] stored(map@, keys@[j]) == stored(before, keys@[j]),
            forall|k: u128| !before.contains_key(k) ==> !#[trigger] map@.contains_key(k),
            forall|k: u128| #[trigger] map@.contains_key(k) ==> map@[k]@.len() > 0,
            changed == exists|j: int|
                0 <= j < i && has_reference(stored(before, #[trigger] keys@[j]), reference_id),
        decreases keys@.len() - i,
    {
        let k = keys[i];
        let ghost old_map = map@;
        proof {
            assert(keys@.to_set().contains(k));
            assert(stored(map@, k) == stored(before, k));
        }
        let bucket = match map.remove(&k) {
            Some(bucket) => bucket,
            None => Vec::new(),
        };
        let rest = other_references(&bucket, reference_id);
        proof {
            lemma_unchanged_length(bucket@, reference_id);
            lemma_filter_commutes(references, keyed(key, k), other_than(reference_id));
            assert(rest@ == filed_under(kept, key, k));
        }
        if rest.len() != bucket.len() {
            changed = true;
        }
        if rest.len() > 0 {
            map.insert(k, rest);
        }
        proof {
            assert forall|j: int| 0 <= j < i + 1 implies #[trigger] stored(map@, keys@[j])
                == filed_under(kept, key, keys@[j]) by {
                if j < i {
                    assert(keys@[j] != k);
                    assert(stored(old_map, keys@[j]) == stored(map@, keys@[j]));
                }
            }
            assert forall|j: int| i + 1 <= j < keys@.len() implies #[trigger] stored(map@, keys@[j])
                == stored(before, keys@[j]) by {
                assert(keys@[j] != k);
                assert(stored(old_map, keys@[j]) == stored(map@, keys@[j]));
            }
            assert(changed == exists|j: int|
                0 <= j < i + 1 && has_reference(stored(before, #[trigger] keys@[j]), reference_id))
                by {
                if has_reference(stored(before, k), reference_id) {
                    assert(has_reference(stored(before, keys@[i as int]), reference_id));
                }
            }
        }
        i += 1;
    }
    proof {
        assert forall|k: u128| #![trigger stored(map@, k)] stored(map@, k) == filed_under(kept, key, k) by {
            if before.contains_key(k) {
                assert(keys@.to_set().contains(k));
                let j = choose|j: int| 0 <= j < keys@.len() && keys@[j] == k;
                assert(stored(map@, keys@[j]) == filed_under(kept, key, keys@[j]));
            } else {
                lemma_filter_commutes(references, keyed(key, k), other_than(reference_id));
                assert(stored(before, k) == filed_under(references, key, k));
                lemma_filter_empty(stored(before, k), other_than(reference_id));
            }
        }
        if has_reference(references, reference_id) {
            let i = choose|i: int| 0 <= i < references.len() && #[trigger] references[i].id == reference_id;
            lemma_filed(before, references, key, i);
            let k = key(references[i]);
            assert(keys@.to_set().contains(k));
            let j = choose|j: int| 0 <= j < keys@.len() && keys@[j] == k;
            let m = choose|m: int| 0 <= m < stored(before, k).len() && stored(before, k)[m] == references[i];
            assert(stored(before, keys@[j])[m].id == reference_id);
            assert(has_reference(stored(before, keys@[j]), reference_id));
        }
        if changed {
            let j = choose|j: int|
                0 <= j < keys@.len() && has_reference(stored(before, #[trigger] keys@[j]), reference_id);
            let bucket = stored(before, keys@[j]);
            let m = choose|m: int| 0 <= m < bucket.len() && #[trigger] bucket[m].id == reference_id;
            assert(bucket == filed_under(references, key, keys@[j]));
            assert(bucket.contains(bucket[m]));
            references.lemma_filter_contains_rev(keyed(key, keys@[j]), bucket[m]);
            let n = choose|n: int| 0 <= n < references.len() && references[n] == bucket[m];
            assert(references[n].id == reference_id);
        }
    }
    changed
}

/// Adding a reference appends it to the references of its target and of its source,
/// and leaves what every other entity is pointed to by and originates unchanged.
pub proof fn lemma_add_files_reference(references: Seq<Reference>, reference: Reference, entity: EntityId)
    ensures
        pointing_to(references.push(reference), entity) == if reference.target == entity {
            pointing_to(references, entity).push(reference)
        } else {
            pointing_to(references, entity)
        },
        originating_from(references.push(reference), entity) == if reference.source == entity {
            originating_from(references, entity).push(reference)
        } else {
            originating_from(references, entity)
        },
{
    references.lemma_filter_push(reference, keyed(target_key(), entity@));
    references.lemma_filter_push(reference, keyed(source_key(), entity@));
}

/// Every indexed reference is found among the references of its target and of its source.
pub proof fn lemma_reference_found(references: Seq<Reference>, i: int)
    requires
        0 <= i < references.len(),
    ensures
        pointing_to(references, references[i].target).contains(references[i]),
        originating_from(references, references[i].source).contains(references[i]),
{
    references.lemma_filter_contains(keyed(target_key(), references[i].target@), i);
    references.lemma_filter_contains(keyed(source_key(), references[i].source@), i);
}

/// After removing an identity, no entity's references hold it any more, and every
/// entity keeps exactly its references with other identities, in order.
pub proof fn lemma_remove_forgets(references: Seq<Reference>, reference_id: EntityId, entity: EntityId)
    ensures
        !has_reference(without_reference(references, reference_id), reference_id),
        pointing_to(without_reference(references, reference_id), entity) == without_reference(
            pointing_to(references, entity),
            reference_id,
        ),
        originating_from(without_reference(references, reference_id), entity) == without_reference(
            originating_from(references, entity),
            reference_id,
        ),
{
    let kept = without_reference(references, reference_id);
    if has_reference(kept, reference_id) {
        let i = choose|i: int| 0 <= i < kept.len() && #[trigger] kept[i].id == reference_id;
        references.lemma_filter_pred(other_than(reference_id), i);
    }
    lemma_filter_commutes(references, other_than(reference_id), keyed(target_key(), entity@));
    lemma_filter_commutes(references, other_than(reference_id), keyed(source_key(), entity@));
}

/// Removing an identity that no indexed reference has changes nothing.
pub proof fn lemma_remove_absent(references: Seq<Reference>, reference_id: EntityId)
    requires
        !has_reference(references, reference_id),
    ensures
        without_reference(references, reference_id) == references,
{
    lemma_unchanged_length(references, reference_id);
    references.lemma_filter_len(other_than(reference_id));
    assert forall|i: int| 0 <= i < references.len() implies (other_than(reference_id))(#[trigger] references[i]) by {
        if references[i].id == reference_id {
            assert(has_reference(references, reference_id));
        }
    }
    lemma_filter_keeps_all(references, other_than(reference_id));
}

/// Removing the identity of a reference just added, when no other reference had it,
/// undoes the addition.
pub proof fn lemma_remove_undoes_add(references: Seq<Reference>, reference: Reference)
    requires
        !has_reference(references, reference.id),
    ensures
        has_reference(references.push(reference), reference.id),
        without_reference(references.push(reference), reference.id) == references,
{
    assert(references.push(reference)[references.len() as int] == reference);
    references.lemma_filter_push(reference, other_than(reference.id));
    lemma_remove_absent(references, reference.id);
}

/// An in-memory index of references between entities.
///
/// The index does not own the entities themselves. It only provides
/// efficient access to references by their source or target.
pub struct ReferenceIndex {
    by_target: HashMap<u128, Vec<Reference>>,
    by_source: HashMap<u128, Vec<Reference>>,
    references: Ghost<Seq<Reference>>,
}

impl View for ReferenceIndex {
    type V = Seq<Reference>;

    /// Every indexed reference, in the order in which it was added.
    closed spec fn view(&self) -> Seq<Reference> {
        self.references@
    }
}

impl ReferenceIndex {
    /// The index files every reference under its target and under its source.
    pub closed spec fn wf(&self) -> bool {
        &&& files_match(self.by_target@, self.references@, target_key())
        &&& files_match(self.by_source@, self.references@, source_key())
        &&& self.references@.len() <= usize::MAX
    }

    /// Creates an empty reference index.
    pub fn new() -> (index: Self)
        ensures
            index.wf(),
            index@ == Seq::<Reference>::empty(),
    {
        let index = ReferenceIndex {
            by_target: HashMap::new(),
            by_source: HashMap::new(),
            references: Ghost(Seq::empty()),
        };
        proof {
            lemma_empty_files_match(index.by_target@, target_key());
            lemma_empty_files_match(index.by_source@, source_key());
        }
        index
    }

    /// Adds a reference to the index.
    pub fn add(&mut self, reference: Reference)
        requires
            old(self).wf(),
            old(self)@.len() < usize::MAX,
        ensures
            final(self).wf(),
            final(self)@ == old(self)@.push(reference),
    {
        let ghost before = self@;
        file_item(&mut self.by_target, reference.target.0, reference, Ghost(before), Ghost(target_key()));
        file_item(&mut self.by_source, reference.source.0, reference, Ghost(before), Ghost(source_key()));
        self.references = Ghost(before.push(reference));
    }

    /// Returns all references pointing to an entity, in the order in which they were added.
    pub fn by_target(&self, entity_id: EntityId) -> (references: &[Reference])
        requires
            self.wf(),
        ensures
            references@ == pointing_to(self@, entity_id),
    {
        proof {
            assert(stored(self.by_target@, entity_id@) == filed_under(self@, target_key(), entity_id@));
        }
        match self.by_target.get(&entity_id.0) {
            Some(references) => references.as_slice(),
            None => &[],
        }
    }

    /// Returns all references originating from an entity, in the order in which they were added.
    pub fn by_source(&self, entity_id: EntityId) -> (references: &[Reference])
        requires
            self.wf(),
        ensures
            references@ == originating_from(self@, entity_id),
    {
        proof {
            assert(stored(self.by_source@, entity_id@) == filed_under(self@, source_key(), entity_id@));
        }
        match self.by_source.get(&entity_id.0) {
            Some(references) => references.as_slice(),
            None => &[],
        }
    }

    /// Removes every reference with the given ID from the index.
    ///
    /// Returns `true` if a reference was removed.
    pub fn remove(&mut self, reference_id: EntityId) -> (removed: bool)
        requires
            old(self).wf(),
        ensures
            final(self).wf(),
            final(self)@ == without_reference(old(self)@, reference_id),
            removed == has_reference(old(self)@, reference_id),
    {
        let ghost before = self@;
        let removed = purge(&mut self.by_target, reference_id, Ghost(before), Ghost(target_key()));
        purge(&mut self.by_source, reference_id, Ghost(before), Ghost(source_key()));
        self.references = Ghost(without_reference(before, reference_id));
        proof {
            before.lemma_filter_len(other_than(reference_id));
        }
        removed
    }

    /// Returns the total number of indexed references.
    pub fn len(&self) -> (count: usize)
        requires
            self.wf(),
        ensures
            count == self@.len(),
    {
        total_len(&self.by_target, Ghost(self@), Ghost(target_key()))
    }

    /// Returns whether the index contains no references.
    pub fn is_empty(&self) -> (empty: bool)
        requires
            self.wf(),
        ensures
            empty == (self@.len() == 0),
    {
        self.len() == 0
    }
}

impl Default for ReferenceIndex {
    fn default() -> (index: Self)
        ensures
            index.wf(),
            index@ == Seq::<Reference>::empty(),
    {
        Self::new()
    }
}

} // verus!
