use crate::id::{is_random_uuid, EntityId};
use vstd::prelude::*;

verus! {

/// Identifies the kind of entity being referenced.
#[derive(Debug, Clone, Copy, PartialEq, Eq, Hash, Structural)]
pub enum EntityType {
    Vocabulary,
    Kanji,
    Grammar,
    Sentence,
    Note,
    Page,
    File,
    Tag,
    Meaning,
    Proverb,
    StudySession,
}

/// Describes the precise location of a reference within its source.
#[allow(inconsistent_fields)]
#[derive(Debug, Clone, Copy, PartialEq, Eq, Structural)]
pub enum ReferenceLocation {
    /// A range of characters within text.
    CharacterRange { start: usize, end: usize },
    /// A range of analyzed tokens.
    TokenRange { start: usize, end: usize },
    /// A page within a paginated document.
    Page { page: u32 },
    /// A specific content block.
    Block { block_id: EntityId },
    /// A location within an external file.
    FileLocation { page: Option<u32>, start: Option<usize>, end: Option<usize> },
}

/// Identifies where an entity is referenced within another entity.
#[derive(Debug, Clone, Copy, PartialEq, Eq, Structural)]
pub struct Reference {
    pub id: EntityId,
    pub target: EntityId,
    pub target_type: EntityType,
    pub source: EntityId,
    pub source_type: EntityType,
    pub location: ReferenceLocation,
}

impl Reference {
    /// A reference with a fresh random identity from `source` to `target` at `location`.
    pub fn new(
        source: EntityId,
        source_type: EntityType,
        target: EntityId,
        target_type: EntityType,
        location: ReferenceLocation,
    ) -> (reference: Self)
        ensures
            is_random_uuid(reference.id@),
            reference.source == source,
            reference.source_type == source_type,
            reference.target == target,
            reference.target_type == target_type,
            reference.location == location,
    {
        Self { id: EntityId::new(), source, source_type, target, target_type, location }
    }
}

} // verus!
