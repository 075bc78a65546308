use kotobase::reference_index::ReferenceIndex;
use kotobase::relationship_index::RelationshipIndex;
use kotobase::{
    EntityId, EntityType, Reference, ReferenceLocation, Relationship, RelationshipKind,
    RelationshipMetadata,
};

fn reference_between(source: EntityId, target: EntityId, start: usize) -> Reference {
    Reference::new(
        source,
        EntityType::Note,
        target,
        EntityType::Vocabulary,
        ReferenceLocation::CharacterRange { start, end: start + 2 },
    )
}

#[test]
fn reference_index_starts_empty() {
    let index = ReferenceIndex::new();
    assert!(index.is_empty());
    assert_eq!(index.len(), 0);
    assert!(index.by_target(EntityId::new()).is_empty());
    assert!(index.by_source(EntityId::new()).is_empty());
    assert!(ReferenceIndex::default().is_empty());
}

#[test]
fn reference_index_finds_references_by_target_and_source_in_order() {
    let note = EntityId::new();
    let other_note = EntityId::new();
    let word = EntityId::new();
    let other_word = EntityId::new();

    let first = reference_between(note, word, 0);
    let second = reference_between(other_note, word, 4);
    let third = reference_between(note, other_word, 8);

    let mut index = ReferenceIndex::new();
    index.add(first);
    index.add(second);
    index.add(third);

    assert_eq!(index.len(), 3);
    assert!(!index.is_empty());
    assert_eq!(index.by_target(word), &[first, second]);
    assert_eq!(index.by_target(other_word), &[third]);
    assert_eq!(index.by_source(note), &[first, third]);
    assert_eq!(index.by_source(other_note), &[second]);
    assert!(index.by_target(note).is_empty());
}

#[test]
fn reference_index_remove_forgets_every_copy() {
    let note = EntityId::new();
    let word = EntityId::new();
    let kept = reference_between(note, word, 0);
    let removed = reference_between(note, word, 3);

    let mut index = ReferenceIndex::new();
    index.add(kept);
    index.add(removed);
    index.add(removed);

    assert_eq!(index.len(), 3);
    assert!(index.remove(removed.id));
    assert_eq!(index.len(), 1);
    assert_eq!(index.by_target(word), &[kept]);
    assert_eq!(index.by_source(note), &[kept]);

    assert!(!index.remove(removed.id));
    assert_eq!(index.len(), 1);
}

#[test]
fn reference_index_remove_of_unknown_id_changes_nothing() {
    let reference = reference_between(EntityId::new(), EntityId::new(), 1);
    let mut index = ReferenceIndex::new();
    index.add(reference);

    assert!(!index.remove(EntityId::new()));
    assert_eq!(index.len(), 1);
    assert_eq!(index.by_target(reference.target), &[reference]);
}

#[test]
fn reference_index_remove_undoes_add() {
    let reference = reference_between(EntityId::new(), EntityId::new(), 1);
    let mut index = ReferenceIndex::new();
    index.add(reference);
    assert!(index.remove(reference.id));
    assert!(index.is_empty());
    assert!(index.by_target(reference.target).is_empty());
    assert!(index.by_source(reference.source).is_empty());
}

#[test]
fn reference_index_counts_self_references_once() {
    let entity = EntityId::new();
    let reference = reference_between(entity, entity, 0);
    let mut index = ReferenceIndex::new();
    index.add(reference);
    assert_eq!(index.len(), 1);
    assert_eq!(index.by_target(entity), &[reference]);
    assert_eq!(index.by_source(entity), &[reference]);
}

#[test]
fn relationship_index_finds_relationships_by_endpoint_and_kind() {
    let source = EntityId::new();
    let target = EntityId::new();
    let other = EntityId::new();

    let about = Relationship::new(source, target, RelationshipKind::About);
    let uses = Relationship::new(source, other, RelationshipKind::Uses);
    let mut metadata = RelationshipMetadata::new();
    metadata.label = Some("label".to_string());
    let explains =
        Relationship::with_metadata(other, target, RelationshipKind::Explains, metadata);

    let mut index = RelationshipIndex::new();
    index.add(about.clone());
    index.add(uses.clone());
    index.add(explains.clone());

    assert_eq!(index.len(), 3);
    assert_eq!(index.by_source(source), &[about.clone(), uses.clone()]);
    assert_eq!(index.by_target(target), &[about.clone(), explains.clone()]);
    assert_eq!(index.by_source_kind(source, RelationshipKind::Uses), vec![&uses]);
    assert_eq!(index.by_target_kind(target, RelationshipKind::Explains), vec![&explains]);
    assert!(index.by_source_kind(source, RelationshipKind::Contains).is_empty());
    assert!(index.by_target(source).is_empty());
}

#[test]
fn relationship_index_remove_matches_source_target_and_kind() {
    let source = EntityId::new();
    let target = EntityId::new();

    let about = Relationship::new(source, target, RelationshipKind::About);
    let uses = Relationship::new(source, target, RelationshipKind::Uses);

    let mut index = RelationshipIndex::new();
    index.add(about.clone());
    index.add(uses.clone());

    assert!(!index.remove(target, source, RelationshipKind::About));
    assert_eq!(index.len(), 2);

    assert!(index.remove(source, target, RelationshipKind::About));
    assert_eq!(index.len(), 1);
    assert_eq!(index.by_source(source), &[uses.clone()]);
    assert_eq!(index.by_target(target), &[uses.clone()]);

    assert!(index.remove(source, target, RelationshipKind::Uses));
    assert!(index.is_empty());
    assert!(index.by_source(source).is_empty());
    assert!(!index.remove(source, target, RelationshipKind::Uses));
}

#[test]
fn relationship_index_starts_empty() {
    let index = RelationshipIndex::default();
    assert!(index.is_empty());
    assert_eq!(index.len(), 0);
    assert!(index.by_source(EntityId::new()).is_empty());
    assert!(index.by_target_kind(EntityId::new(), RelationshipKind::About).is_empty());
}
