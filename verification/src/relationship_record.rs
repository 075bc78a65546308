//! The storage form of relationships: one record per relationship, with its kind
//! stored as a name.

use crate::decode_error::DecodeError;
use crate::id::EntityId;
use crate::reference_record::holds_uuid;
use crate::relationship::{Relationship, RelationshipKind, RelationshipMetadata};
use crate::text::{entity_id_text, parse_entity_id, parsed_uuid, text_equals, uuid_text};
use vstd::prelude::*;

verus! {

/// The name under which a relationship kind is stored.
pub open spec fn relationship_kind_name(kind: RelationshipKind) -> Seq<char> {
    match kind {
        RelationshipKind::About => "about"@,
        RelationshipKind::Contains => "contains"@,
        RelationshipKind::References => "references"@,
        RelationshipKind::Uses => "uses"@,
        RelationshipKind::ExampleOf => "example_of"@,
        RelationshipKind::Explains => "explains"@,
        RelationshipKind::Translates => "translates"@,
        RelationshipKind::DerivedFrom => "derived_from"@,
        RelationshipKind::RelatedTo => "related_to"@,
    }
}

/// The relationship kind stored under a name, if any.
pub open spec fn relationship_kind_named(name: Seq<char>) -> Option<RelationshipKind> {
    if name == "about"@ {
        Some(RelationshipKind::About)
    } else if name == "contains"@ {
        Some(RelationshipKind::Contains)
    } else if name == "references"@ {
        Some(RelationshipKind::References)
    } else if name == "uses"@ {
        Some(RelationshipKind::Uses)
    } else if name == "example_of"@ {
        Some(RelationshipKind::ExampleOf)
    } else if name == "explains"@ {
        Some(RelationshipKind::Explains)
    } else if name == "translates"@ {
        Some(RelationshipKind::Translates)
    } else if name == "derived_from"@ {
        Some(RelationshipKind::DerivedFrom)
    } else if name == "related_to"@ {
        Some(RelationshipKind::RelatedTo)
    } else {
        None
    }
}

/// The name under which a relationship kind is stored.
pub fn relationship_kind_to_string(kind: RelationshipKind) -> (name: &'static str)
    ensures
        name@ == relationship_kind_name(kind),
{
    match kind {
        RelationshipKind::About => "about",
        RelationshipKind::Contains => "contains",
        RelationshipKind::References => "references",
        RelationshipKind::Uses => "uses",
        RelationshipKind::ExampleOf => "example_of",
        RelationshipKind::Explains => "explains",
        RelationshipKind::Translates => "translates",
        RelationshipKind::DerivedFrom => "derived_from",
        RelationshipKind::RelatedTo => "related_to",
    }
}

/// The relationship kind stored under a name; an unknown name is an error.
pub fn relationship_kind_from_string(value: &str) -> (kind: Result<RelationshipKind, DecodeError>)
    ensures
        kind == match relationship_kind_named(value@) {
            Some(k) => Ok(k),
            None => Err(DecodeError::UnknownRelationshipKind),
        },
{
    if text_equals(value, "about") {
        Ok(RelationshipKind::About)
    } else if text_equals(value, "contains") {
        Ok(RelationshipKind::Contains)
    } else if text_equals(value, "references") {
        Ok(RelationshipKind::References)
    } else if text_equals(value, "uses") {
        Ok(RelationshipKind::Uses)
    } else if text_equals(value, "example_of") {
        Ok(RelationshipKind::ExampleOf)
    } else if text_equals(value, "explains") {
        Ok(RelationshipKind::Explains)
    } else if text_equals(value, "translates") {
        Ok(RelationshipKind::Translates)
    } else if text_equals(value, "derived_from") {
        Ok(RelationshipKind::DerivedFrom)
    } else if text_equals(value, "related_to") {
        Ok(RelationshipKind::RelatedTo)
    } else {
        Err(DecodeError::UnknownRelationshipKind)
    }
}

/// Every relationship kind is read back from the name under which it is stored.
pub proof fn lemma_relationship_kind_name_round_trip(kind: RelationshipKind)
    ensures
        relationship_kind_named(relationship_kind_name(kind)) == Some(kind),
{
    reveal_strlit("about");
    reveal_strlit("contains");
    reveal_strlit("references");
    reveal_strlit("uses");
    reveal_strlit("example_of");
    reveal_strlit("explains");
    reveal_strlit("translates");
    reveal_strlit("derived_from");
    reveal_strlit("related_to");
    assert("about"@.len() == 5 && "contains"@.len() == 8 && "references"@.len() == 10);
    assert("uses"@.len() == 4 && "example_of"@.len() == 10 && "explains"@.len() == 8);
    assert("translates"@.len() == 10 && "derived_from"@.len() == 12 && "related_to"@.len() == 10);
    assert("references"@[0] != "example_of"@[0] && "references"@[0] != "translates"@[0]);
    assert("example_of"@[0] != "translates"@[0]);
    assert("example_of"@[0] != "related_to"@[0] && "translates"@[0] != "related_to"@[0]);
    assert("contains"@[0] != "explains"@[0]);
    assert("references"@[2] != "related_to"@[2]);
}

/// The columns of a stored relationship.
#[derive(Debug, Clone, PartialEq, Eq)]
pub struct RelationshipRecord {
    pub source_id: String,
    pub target_id: String,
    pub kind: String,
    pub label: Option<String>,
    pub context: Option<String>,
}

/// Whether a record is the stored form of a relationship.
pub open spec fn encodes_relationship(record: RelationshipRecord, relationship: Relationship) -> bool {
    &&& holds_uuid(record.source_id@, relationship.source@)
    &&& holds_uuid(record.target_id@, relationship.target@)
    &&& record.kind@ == relationship_kind_name(relationship.kind)
    &&& record.label == relationship.metadata.label
    &&& record.context == relationship.metadata.context
}

/// A copy of an optional text, equal to it.
fn copy_text(text: &Option<String>) -> (copy: Option<String>)
    ensures
        copy == *text,
{
    match text {
        Some(value) => Some(value.clone()),
        None => None,
    }
}

/// The record under which a relationship is stored.
pub fn relationship_to_record(relationship: &Relationship) -> (record: RelationshipRecord)
    ensures
        encodes_relationship(record, *relationship),
{
    RelationshipRecord {
        source_id: entity_id_text(relationship.source),
        target_id: entity_id_text(relationship.target),
        kind: relationship_kind_to_string(relationship.kind).to_owned(),
        label: copy_text(&relationship.metadata.label),
        context: copy_text(&relationship.metadata.context),
    }
}

/// The relationship that a record describes, or the first reason it describes none:
/// the source is read first, then the target, then the kind.
pub open spec fn decoded_relationship(record: RelationshipRecord) -> Result<Relationship, DecodeError> {
    if parsed_uuid(record.source_id@) is None || parsed_uuid(record.target_id@) is None {
        Err(DecodeError::InvalidRelationshipEntityId)
    } else {
        match relationship_kind_named(record.kind@) {
            None => Err(DecodeError::UnknownRelationshipKind),
            Some(kind) => Ok(
                Relationship {
                    source: EntityId(parsed_uuid(record.source_id@)->0),
                    target: EntityId(parsed_uuid(record.target_id@)->0),
                    kind,
                    metadata: RelationshipMetadata { label: record.label, context: record.context },
                },
            ),
        }
    }
}

/// The relationship that a stored record describes, or the first reason it describes none.
pub fn row_to_relationship(row: RelationshipRecord) -> (relationship: Result<Relationship, DecodeError>)
    ensures
        relationship == decoded_relationship(row),
{
    let source = match parse_entity_id(row.source_id.as_str()) {
        Some(id) => id,
        None => return Err(DecodeError::InvalidRelationshipEntityId),
    };
    let target = match parse_entity_id(row.target_id.as_str()) {
        Some(id) => id,
        None => return Err(DecodeError::InvalidRelationshipEntityId),
    };
    let kind = relationship_kind_from_string(row.kind.as_str())?;
    let metadata = RelationshipMetadata { label: row.label, context: row.context };
    Ok(Relationship::with_metadata(source, target, kind, metadata))
}

/// The record under which a relationship is stored holds, column by column: the source's
/// UUID text in `source_id`, the target's in `target_id`, the name of the kind in `kind`,
/// and the label and the context each in its own column.
pub proof fn lemma_relationship_columns(record: RelationshipRecord, relationship: Relationship)
    requires
        encodes_relationship(record, relationship),
    ensures
        record.source_id@ == uuid_text(relationship.source@),
        record.target_id@ == uuid_text(relationship.target@),
        record.kind@ == relationship_kind_name(relationship.kind),
        record.label == relationship.metadata.label,
        record.context == relationship.metadata.context,
{
}

/// A relationship read from a record takes each value from its own column: the source from
/// `source_id`, the target from `target_id`, the kind from `kind`, and the label and the
/// context from the columns of those names.
pub proof fn lemma_relationship_read_columns(record: RelationshipRecord)
    ensures
        decoded_relationship(record) matches Ok(relationship) ==> {
            &&& parsed_uuid(record.source_id@) == Some(relationship.source@)
            &&& parsed_uuid(record.target_id@) == Some(relationship.target@)
            &&& relationship_kind_named(record.kind@) == Some(relationship.kind)
            &&& relationship.metadata.label == record.label
            &&& relationship.metadata.context == record.context
        },
{
}

/// Reading back the record under which a relationship is stored gives that relationship.
pub proof fn lemma_relationship_round_trip(record: RelationshipRecord, relationship: Relationship)
    requires
        encodes_relationship(record, relationship),
    ensures
        decoded_relationship(record) == Ok::<Relationship, DecodeError>(relationship),
{
    lemma_relationship_kind_name_round_trip(relationship.kind);
}

} // verus!
