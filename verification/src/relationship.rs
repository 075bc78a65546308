use crate::id::EntityId;
use vstd::prelude::*;

verus! {

/// Describes the semantic relationship between two entities.
#[derive(Debug, Clone, Copy, PartialEq, Eq, Hash, Structural)]
pub enum RelationshipKind {
    /// The source is about the target.
    About,
    /// The source contains the target.
    Contains,
    /// The source references the target.
    References,
    /// The source uses the target.
    Uses,
    /// The source is an example of the target.
    ExampleOf,
    /// The source explains the target.
    Explains,
    /// The source translates the target.
    Translates,
    /// The source was derived from the target.
    DerivedFrom,
    /// The source is related to the target without a more specific relationship.
    RelatedTo,
}

/// Optional metadata describing why or how a relationship exists.
#[derive(Debug, Clone, PartialEq, Eq)]
pub struct RelationshipMetadata {
    pub label: Option<String>,
    pub context: Option<String>,
}

impl RelationshipMetadata {
    /// Metadata with neither a label nor a context.
    pub fn new() -> (metadata: Self)
        ensures
            metadata.label is None,
            metadata.context is None,
    {
        Self { label: None, context: None }
    }
}

impl Default for RelationshipMetadata {
    fn default() -> (metadata: Self)
        ensures
            metadata.label is None,
            metadata.context is None,
    {
        Self::new()
    }
}

/// A directed semantic relationship between two entities.
#[derive(Debug, Clone, PartialEq, Eq)]
pub struct Relationship {
    pub source: EntityId,
    pub target: EntityId,
    pub kind: RelationshipKind,
    pub metadata: RelationshipMetadata,
}

/// A copy of an optional string that is equal to the original.
fn copy_text(text: &Option<String>) -> (copy: Option<String>)
    ensures
        copy == *text,
{
    match text {
        Some(value) => Some(value.clone()),
        None => None,
    }
}

impl Relationship {
    /// A relationship of the given kind from `source` to `target`, without metadata.
    pub fn new(source: EntityId, target: EntityId, kind: RelationshipKind) -> (relationship: Self)
        ensures
            relationship.source == source,
            relationship.target == target,
            relationship.kind == kind,
            relationship.metadata.label is None,
            relationship.metadata.context is None,
    {
        Self { source, target, kind, metadata: RelationshipMetadata::default() }
    }

    /// A relationship of the given kind from `source` to `target` that carries `metadata`.
    pub fn with_metadata(
        source: EntityId,
        target: EntityId,
        kind: RelationshipKind,
        metadata: RelationshipMetadata,
    ) -> (relationship: Self)
        ensures
            relationship == (Relationship { source, target, kind, metadata }),
    {
        Self { source, target, kind, metadata }
    }

    /// A copy of this relationship, equal to it field by field.
    pub(crate) fn copied(&self) -> (copy: Self)
        ensures
            copy == *self,
    {
        Relationship {
            source: self.source,
            target: self.target,
            kind: self.kind,
            metadata: RelationshipMetadata {
                label: copy_text(&self.metadata.label),
                context: copy_text(&self.metadata.context),
            },
        }
    }
}

} // verus!
