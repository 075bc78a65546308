use crate::buckets::{
    file_item, filed_under, files_match, keyed, lemma_empty_files_match, lemma_filed, stored,
    total_len,
};
use crate::filters::{lemma_filter_commutes, lemma_filter_drops, lemma_filter_empty, lemma_filter_keeps_all};
use crate::id::EntityId;
use crate::relationship::{Relationship, RelationshipKind};
use std::collections::HashMap;
use vstd::prelude::*;

verus! {

broadcast use vstd::std_specs::hash::group_hash_axioms;

/// The key under which a relationship is filed by its source.
pub open spec fn source_key() -> spec_fn(Relationship) -> u128 {
    |relationship: Relationship| relationship.source@
}

/// The key under which a relationship is filed by its target.
pub open spec fn target_key() -> spec_fn(Relationship) -> u128 {
    |relationship: Relationship| relationship.target@
}

/// The relationships, in order, that originate from `entity`.
pub open spec fn from_entity(relationships: Seq<Relationship>, entity: EntityId) -> Seq<Relationship> {
    filed_under(relationships, source_key(), entity@)
}

/// The relationships, in order, that point to `entity`.
pub open spec fn to_entity(relationships: Seq<Relationship>, entity: EntityId) -> Seq<Relationship> {
    filed_under(relationships, target_key(), entity@)
}

/// Holds of the relationships of the given kind.
pub open spec fn of_kind(kind: RelationshipKind) -> spec_fn(Relationship) -> bool {
    |relationship: Relationship| relationship.kind == kind
}

/// Whether a relationship goes from `source` to `target` with the given kind.
pub open spec fn links(
    relationship: Relationship,
    source: EntityId,
    target: EntityId,
    kind: RelationshipKind,
) -> bool {
    relationship.source == source && relationship.target == target && relationship.kind == kind
}

/// Holds of the relationships that do not go from `source` to `target` with the given kind.
pub open spec fn other_link(source: EntityId, target: EntityId, kind: RelationshipKind) -> spec_fn(
    Relationship,
) -> bool {
    |relationship: Relationship| !links(relationship, source, target, kind)
}

/// The relationships, in order, other than those from `source` to `target` of the given kind.
pub open spec fn without_link(
    relationships: Seq<Relationship>,
    source: EntityId,
    target: EntityId,
    kind: RelationshipKind,
) -> Seq<Relationship> {
    relationships.filter(other_link(source, target, kind))
}

/// Whether some relationship goes from `source` to `target` with the given kind.
pub open spec fn has_link(
    relationships: Seq<Relationship>,
    source: EntityId,
    target: EntityId,
    kind: RelationshipKind,
) -> bool {
    exists|i: int| 0 <= i < relationships.len() && links(#[trigger] relationships[i], source, target, kind)
}

/// The relationships of `bucket`, in order, other than those from `source` to `target` of the given kind.
fn other_links(
    bucket: &Vec<Relationship>,
    source: EntityId,
    target: EntityId,
    kind: RelationshipKind,
) -> (rest: Vec<Relationship>)
    ensures
        rest@ == without_link(bucket@, source, target, kind),
{
    let mut rest: Vec<Relationship> = Vec::new();
    let mut j: usize = 0;
    while j < bucket.len()
        invariant
            0 <= j <= bucket@.len(),
            rest@ == without_link(bucket@.take(j as int), source, target, kind),
        decreases bucket@.len() - j,
    {
        let relationship = &bucket[j];
        proof {
            assert(bucket@.take(j + 1) =~= bucket@.take(j as int).push(*relationship));
            bucket@.take(j as int).lemma_filter_push(*relationship, other_link(source, target, kind));
        }
        if !(relationship.source == source && relationship.target == target && relationship.kind == kind) {
            rest.push(relationship.copied());
        }
        j += 1;
    }
    assert(bucket@.take(bucket@.len() as int) =~= bucket@);
    rest
}

/// Filtering leaves a sequence as long as it was exactly when it holds no such relationship.
proof fn lemma_unchanged_length(
    relationships: Seq<Relationship>,
    source: EntityId,
    target: EntityId,
    kind: RelationshipKind,
)
    ensures
        (without_link(relationships, source, target, kind).len() == relationships.len())
            <==> !has_link(relationships, source, target, kind),
{
    if has_link(relationships, source, target, kind) {
        let i = choose|i: int|
            0 <= i < relationships.len() && links(#[trigger] relationships[i], source, target, kind);
        lemma_filter_drops(relationships, other_link(source, target, kind), i);
    } else {
        assert forall|i: int| 0 <= i < relationships.len() implies (other_link(source, target, kind))(
            #[trigger] relationships[i],
        ) by {
            if links(relationships[i], source, target, kind) {
                assert(has_link(relationships, source, target, kind));
            }
        }
        lemma_filter_keeps_all(relationships, other_link(source, target, kind));
    }
}

/// Removes the relationships from `source` to `target` of the given kind from the list
/// under `k`, the key of every such relationship, dropping the list if it becomes empty.
/// Returns whether the list changed.
fn prune(
    map: &mut HashMap<u128, Vec<Relationship>>,
    k: u128,
    source: EntityId,
    target: EntityId,
    kind: RelationshipKind,
    Ghost(relationships): Ghost<Seq<Relationship>>,
    Ghost(key): Ghost<spec_fn(Relationship) -> u128>,
) -> (changed: bool)
    requires
        files_match(old(map)@, relationships, key),
        forall|r: Relationship| links(r, source, target, kind) ==> #[trigger] key(r) == k,
    ensures
        files_match(final(map)@, without_link(relationships, source, target, kind), key),
        changed == has_link(relationships, source, target, kind),
{
    let ghost before = map@;
    let ghost kept = without_link(relationships, source, target, kind);
    let changed = match map.remove(&k) {
        Some(bucket) => {
            let rest = other_links(&bucket, source, target, kind);
            proof {
                lemma_unchanged_length(bucket@, source, target, kind);
            }
            let changed = rest.len() != bucket.len();
            if rest.len() > 0 {
                map.insert(k, rest);
            }
            changed
        },
        None => false,
    };
    proof {
        assert(stored(before, k) == filed_under(relationships, key, k));
        lemma_unchanged_length(stored(before, k), source, target, kind);
        assert forall|j: u128| #![trigger stored(map@, j)] stored(map@, j) == filed_under(kept, key, j) by {
            lemma_filter_commutes(relationships, keyed(key, j), other_link(source, target, kind));
            assert(stored(before, j) == filed_under(relationships, key, j));
            if j == k {
                if !before.contains_key(k) {
                    lemma_filter_empty(stored(before, k), other_link(source, target, kind));
                }
            } else {
                let bucket = stored(before, j);
                assert forall|i: int| 0 <= i < bucket.len() implies (other_link(source, target, kind))(
                    #[trigger] bucket[i],
                ) by {
                    relationships.lemma_filter_pred(keyed(key, j), i);
                }
                lemma_filter_keeps_all(bucket, other_link(source, target, kind));
                assert(stored(map@, j) == stored(before, j));
            }
        }
        if has_link(relationships, source, target, kind) {
            let i = choose|i: int|
                0 <= i < relationships.len() && links(#[trigger] relationships[i], source, target, kind);
            lemma_filed(before, relationships, key, i);
            let bucket = stored(before, k);
            let m = choose|m: int| 0 <= m < bucket.len() && bucket[m] == relationships[i];
            assert(links(bucket[m], source, target, kind));
        }
        if has_link(stored(before, k), source, target, kind) {
            let bucket = stored(before, k);
            let m = choose|m: int| 0 <= m < bucket.len() && links(#[trigger] bucket[m], source, target, kind);
            assert(bucket.contains(bucket[m]));
            relationships.lemma_filter_contains_rev(keyed(key, k), bucket[m]);
            let n = choose|n: int| 0 <= n < relationships.len() && relationships[n] == bucket[m];
            assert(links(relationships[n], source, target, kind));
        }
    }
    changed
}

/// The relationships of `all`, in order, of the given kind, by reference.
fn of_kind_in(all: &[Relationship], kind: RelationshipKind) -> (found: Vec<&Relationship>)
    ensures
        found@.unref() == all@.filter(of_kind(kind)),
{
    let mut found: Vec<&Relationship> = Vec::new();
    let mut j: usize = 0;
    while j < all.len()
        invariant
            0 <= j <= all@.len(),
            found@.unref() == all@.take(j as int).filter(of_kind(kind)),
        decreases all@.len() - j,
    {
        let relationship = &all[j];
        proof {
            assert(all@.take(j + 1) =~= all@.take(j as int).push(*relationship));
            all@.take(j as int).lemma_filter_push(*relationship, of_kind(kind));
        }
        let ghost previous = found@;
        if relationship.kind == kind {
            found.push(relationship);
            assert(found@.unref() =~= previous.unref().push(*relationship));
        }
        j += 1;
    }
    assert(all@.take(all@.len() as int) =~= all@);
    found
}

/// Adding a relationship appends it to the relationships of its source and of its target,
/// and leaves those of every other entity unchanged.
pub proof fn lemma_add_files_relationship(
    relationships: Seq<Relationship>,
    relationship: Relationship,
    entity: EntityId,
)
    ensures
        from_entity(relationships.push(relationship), entity) == if relationship.source == entity {
            from_entity(relationships, entity).push(relationship)
        } else {
            from_entity(relationships, entity)
        },
        to_entity(relationships.push(relationship), entity) == if relationship.target == entity {
            to_entity(relationships, entity).push(relationship)
        } else {
            to_entity(relationships, entity)
        },
{
    relationships.lemma_filter_push(relationship, keyed(source_key(), entity@));
    relationships.lemma_filter_push(relationship, keyed(target_key(), entity@));
}

/// Every indexed relationship is found among those of its source and of its target,
/// also when the lookup asks for its kind.
pub proof fn lemma_relationship_found(relationships: Seq<Relationship>, i: int)
    requires
        0 <= i < relationships.len(),
    ensures
        from_entity(relationships, relationships[i].source).contains(relationships[i]),
        to_entity(relationships, relationships[i].target).contains(relationships[i]),
        from_entity(relationships, relationships[i].source).filter(of_kind(relationships[i].kind)).contains(
            relationships[i],
        ),
        to_entity(relationships, relationships[i].target).filter(of_kind(relationships[i].kind)).contains(
            relationships[i],
        ),
{
    let r = relationships[i];
    relationships.lemma_filter_contains(keyed(source_key(), r.source@), i);
    relationships.lemma_filter_contains(keyed(target_key(), r.target@), i);
    let outgoing = from_entity(relationships, r.source);
    let incoming = to_entity(relationships, r.target);
    let m = choose|m: int| 0 <= m < outgoing.len() && outgoing[m] == r;
    outgoing.lemma_filter_contains(of_kind(r.kind), m);
    let n = choose|n: int| 0 <= n < incoming.len() && incoming[n] == r;
    incoming.lemma_filter_contains(of_kind(r.kind), n);
}

/// After removing a link, no entity's relationships hold it any more, and every entity
/// keeps exactly its other relationships, in order.
pub proof fn lemma_remove_forgets(
    relationships: Seq<Relationship>,
    source: EntityId,
    target: EntityId,
    kind: RelationshipKind,
    entity: EntityId,
)
    ensures
        !has_link(without_link(relationships, source, target, kind), source, target, kind),
        from_entity(without_link(relationships, source, target, kind), entity) == without_link(
            from_entity(relationships, entity),
            source,
            target,
            kind,
        ),
        to_entity(without_link(relationships, source, target, kind), entity) == without_link(
            to_entity(relationships, entity),
            source,
            target,
            kind,
        ),
{
    let kept = without_link(relationships, source, target, kind);
    if has_link(kept, source, target, kind) {
        let i = choose|i: int| 0 <= i < kept.len() && links(#[trigger] kept[i], source, target, kind);
        relationships.lemma_filter_pred(other_link(source, target, kind), i);
    }
    lemma_filter_commutes(relationships, other_link(source, target, kind), keyed(source_key(), entity@));
    lemma_filter_commutes(relationships, other_link(source, target, kind), keyed(target_key(), entity@));
}

/// Removing a link that no indexed relationship forms changes nothing.
pub proof fn lemma_remove_absent(
    relationships: Seq<Relationship>,
    source: EntityId,
    target: EntityId,
    kind: RelationshipKind,
)
    requires
        !has_link(relationships, source, target, kind),
    ensures
        without_link(relationships, source, target, kind) == relationships,
{
    assert forall|i: int| 0 <= i < relationships.len() implies (other_link(source, target, kind))(
        #[trigger] relationships[i],
    ) by {
        if links(relationships[i], source, target, kind) {
            assert(has_link(relationships, source, target, kind));
        }
    }
    lemma_filter_keeps_all(relationships, other_link(source, target, kind));
}

/// Removing the link of a relationship just added, when no other relationship formed it,
/// undoes the addition.
pub proof fn lemma_remove_undoes_add(relationships: Seq<Relationship>, relationship: Relationship)
    requires
        !has_link(relationships, relationship.source, relationship.target, relationship.kind),
    ensures
        has_link(relationships.push(relationship), relationship.source, relationship.target, relationship.kind),
        without_link(relationships.push(relationship), relationship.source, relationship.target, relationship.kind)
            == relationships,
{
    let (s, t, k) = (relationship.source, relationship.target, relationship.kind);
    assert(relationships.push(relationship)[relationships.len() as int] == relationship);
    relationships.lemma_filter_push(relationship, other_link(s, t, k));
    lemma_remove_absent(relationships, s, t, k);
}

/// An in-memory index of semantic relationships between entities.
///
/// The index does not own the entities themselves. It only provides
/// efficient access to relationships by source, target, or kind.
pub struct RelationshipIndex {
    by_source: HashMap<u128, Vec<Relationship>>,
    by_target: HashMap<u128, Vec<Relationship>>,
    relationships: Ghost<Seq<Relationship>>,
}

impl View for RelationshipIndex {
    type V = Seq<Relationship>;

    /// Every indexed relationship, in the order in which it was added.
    closed spec fn view(&self) -> Seq<Relationship> {
        self.relationships@
    }
}

impl RelationshipIndex {
    /// The index files every relationship under its source and under its target.
    pub closed spec fn wf(&self) -> bool {
        &&& files_match(self.by_source@, self.relationships@, source_key())
        &&& files_match(self.by_target@, self.relationships@, target_key())
        &&& self.relationships@.len() <= usize::MAX
    }

    /// Creates an empty relationship index.
    pub fn new() -> (index: Self)
        ensures
            index.wf(),
            index@ == Seq::<Relationship>::empty(),
    {
        let index = RelationshipIndex {
            by_source: HashMap::new(),
            by_target: HashMap::new(),
            relationships: Ghost(Seq::empty()),
        };
        proof {
            lemma_empty_files_match(index.by_source@, source_key());
            lemma_empty_files_match(index.by_target@, target_key());
        }
        index
    }

    /// Adds a relationship to the index.
    pub fn add(&mut self, relationship: Relationship)
        requires
            old(self).wf(),
            old(self)@.len() < usize::MAX,
        ensures
            final(self).wf(),
            final(self)@ == old(self)@.push(relationship),
    {
        let ghost before = self@;
        let copy = relationship.copied();
        file_item(&mut self.by_source, relationship.source.0, copy, Ghost(before), Ghost(source_key()));
        file_item(&mut self.by_target, relationship.target.0, relationship, Ghost(before), Ghost(target_key()));
        self.relationships = Ghost(before.push(relationship));
    }

    /// Returns all relationships originating from an entity, in the order in which they were added.
    pub fn by_source(&self, entity_id: EntityId) -> (relationships: &[Relationship])
        requires
            self.wf(),
        ensures
            relationships@ == from_entity(self@, entity_id),
    {
        proof {
            assert(stored(self.by_source@, entity_id@) == filed_under(self@, source_key(), entity_id@));
        }
        match self.by_source.get(&entity_id.0) {
            Some(relationships) => relationships.as_slice(),
            None => &[],
        }
    }

    /// Returns all relationships pointing to an entity, in the order in which they were added.
    pub fn by_target(&self, entity_id: EntityId) -> (relationships: &[Relationship])
        requires
            self.wf(),
        ensures
            relationships@ == to_entity(self@, entity_id),
    {
        proof {
            assert(stored(self.by_target@, entity_id@) == filed_under(self@, target_key(), entity_id@));
        }
        match self.by_target.get(&entity_id.0) {
            Some(relationships) => relationships.as_slice(),
            None => &[],
        }
    }

    /// Returns relationships of a specific kind originating from an entity.
    pub fn by_source_kind(&self, entity_id: EntityId, kind: RelationshipKind) -> (found: Vec<&Relationship>)
        requires
            self.wf(),
        ensures
            found@.unref() == from_entity(self@, entity_id).filter(of_kind(kind)),
    {
        of_kind_in(self.by_source(entity_id), kind)
    }

    /// Returns relationships of a specific kind pointing to an entity.
    pub fn by_target_kind(&self, entity_id: EntityId, kind: RelationshipKind) -> (found: Vec<&Relationship>)
        requires
            self.wf(),
        ensures
            found@.unref() == to_entity(self@, entity_id).filter(of_kind(kind)),
    {
        of_kind_in(self.by_target(entity_id), kind)
    }

    /// Removes a relationship from the index by its source, target and kind.
    ///
    /// Returns `true` if a relationship was removed.
    pub fn remove(&mut self, source: EntityId, target: EntityId, kind: RelationshipKind) -> (removed: bool)
        requires
            old(self).wf(),
        ensures
            final(self).wf(),
            final(self)@ == without_link(old(self)@, source, target, kind),
            removed == has_link(old(self)@, source, target, kind),
    {
        let ghost before = self@;
        let removed = prune(&mut self.by_source, source.0, source, target, kind, Ghost(before), Ghost(source_key()));
        prune(&mut self.by_target, target.0, source, target, kind, Ghost(before), Ghost(target_key()));
        self.relationships = Ghost(without_link(before, source, target, kind));
        proof {
            before.lemma_filter_len(other_link(source, target, kind));
        }
        removed
    }

    /// Returns the total number of indexed relationships.
    pub fn len(&self) -> (count: usize)
        requires
            self.wf(),
        ensures
            count == self@.len(),
    {
        total_len(&self.by_source, Ghost(self@), Ghost(source_key()))
    }

    /// Returns whether the index contains no relationships.
    pub fn is_empty(&self) -> (empty: bool)
        requires
            self.wf(),
        ensures
            empty == (self@.len() == 0),
    {
        self.len() == 0
    }
}

impl Default for RelationshipIndex {
    fn default() -> (index: Self)
        ensures
            index.wf(),
            index@ == Seq::<Relationship>::empty(),
    {
        Self::new()
    }
}

} // verus!
