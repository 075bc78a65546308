//! The storage form of references: one record per reference, with its entity types
//! and the kind of its location stored as names.

use crate::decode_error::DecodeError;
use crate::id::EntityId;
use crate::reference::{EntityType, Reference, ReferenceLocation};
use crate::text::{entity_id_text, parse_entity_id, parsed_uuid, text_equals, uuid_text};
use vstd::prelude::*;

verus! {

/// The name under which an entity type is stored.
pub open spec fn entity_type_name(entity_type: EntityType) -> Seq<char> {
    match entity_type {
        EntityType::Vocabulary => "vocabulary"@,
        EntityType::Kanji => "kanji"@,
        EntityType::Grammar => "grammar"@,
        EntityType::Sentence => "sentence"@,
        EntityType::Note => "note"@,
        EntityType::Page => "page"@,
        EntityType::File => "file"@,
        EntityType::Tag => "tag"@,
        EntityType::Meaning => "meaning"@,
        EntityType::Proverb => "proverb"@,
        EntityType::StudySession => "study_session"@,
    }
}

/// The entity type stored under a name, if any.
pub open spec fn entity_type_named(name: Seq<char>) -> Option<EntityType> {
    if name == "vocabulary"@ {
        Some(EntityType::Vocabulary)
    } else if name == "kanji"@ {
        Some(EntityType::Kanji)
    } else if name == "grammar"@ {
        Some(EntityType::Grammar)
    } else if name == "sentence"@ {
        Some(EntityType::Sentence)
    } else if name == "note"@ {
        Some(EntityType::Note)
    } else if name == "page"@ {
        Some(EntityType::Page)
    } else if name == "file"@ {
        Some(EntityType::File)
    } else if name == "tag"@ {
        Some(EntityType::Tag)
    } else if name == "meaning"@ {
        Some(EntityType::Meaning)
    } else if name == "proverb"@ {
        Some(EntityType::Proverb)
    } else if name == "study_session"@ {
        Some(EntityType::StudySession)
    } else {
        None
    }
}

/// The name under which an entity type is stored.
pub fn entity_type_to_string(entity_type: EntityType) -> (name: &'static str)
    ensures
        name@ == entity_type_name(entity_type),
{
    match entity_type {
        EntityType::Vocabulary => "vocabulary",
        EntityType::Kanji => "kanji",
        EntityType::Grammar => "grammar",
        EntityType::Sentence => "sentence",
        EntityType::Note => "note",
        EntityType::Page => "page",
        EntityType::File => "file",
        EntityType::Tag => "tag",
        EntityType::Meaning => "meaning",
        EntityType::Proverb => "proverb",
        EntityType::StudySession => "study_session",
    }
}

/// The entity type stored under a name; an unknown name is an error.
pub fn entity_type_from_string(value: String) -> (entity_type: Result<EntityType, DecodeError>)
    ensures
        entity_type == match entity_type_named(value@) {
            Some(t) => Ok(t),
            None => Err(DecodeError::UnknownEntityType),
        },
{
    let name = value.as_str();
    if text_equals(name, "vocabulary") {
        Ok(EntityType::Vocabulary)
    } else if text_equals(name, "kanji") {
        Ok(EntityType::Kanji)
    } else if text_equals(name, "grammar") {
        Ok(EntityType::Grammar)
    } else if text_equals(name, "sentence") {
        Ok(EntityType::Sentence)
    } else if text_equals(name, "note") {
        Ok(EntityType::Note)
    } else if text_equals(name, "page") {
        Ok(EntityType::Page)
    } else if text_equals(name, "file") {
        Ok(EntityType::File)
    } else if text_equals(name, "tag") {
        Ok(EntityType::Tag)
    } else if text_equals(name, "meaning") {
        Ok(EntityType::Meaning)
    } else if text_equals(name, "proverb") {
        Ok(EntityType::Proverb)
    } else if text_equals(name, "study_session") {
        Ok(EntityType::StudySession)
    } else {
        Err(DecodeError::UnknownEntityType)
    }
}

/// Every entity type is read back from the name under which it is stored.
pub proof fn lemma_entity_type_name_round_trip(entity_type: EntityType)
    ensures
        entity_type_named(entity_type_name(entity_type)) == Some(entity_type),
{
    reveal_strlit("vocabulary");
    reveal_strlit("kanji");
    reveal_strlit("grammar");
    reveal_strlit("sentence");
    reveal_strlit("note");
    reveal_strlit("page");
    reveal_strlit("file");
    reveal_strlit("tag");
    reveal_strlit("meaning");
    reveal_strlit("proverb");
    reveal_strlit("study_session");
    assert("vocabulary"@.len() == 10 && "kanji"@.len() == 5 && "grammar"@.len() == 7);
    assert("sentence"@.len() == 8 && "note"@.len() == 4 && "page"@.len() == 4 && "file"@.len() == 4);
    assert("tag"@.len() == 3 && "meaning"@.len() == 7 && "proverb"@.len() == 7);
    assert("study_session"@.len() == 13);
    assert("note"@[0] != "page"@[0] && "note"@[0] != "file"@[0] && "page"@[0] != "file"@[0]);
    assert("grammar"@[0] != "meaning"@[0] && "grammar"@[0] != "proverb"@[0] && "meaning"@[0] != "proverb"@[0]);
}

/// The name under which the kind of a location is stored.
pub open spec fn location_type_name(location: ReferenceLocation) -> Seq<char> {
    match location {
        ReferenceLocation::CharacterRange { .. } => "character_range"@,
        ReferenceLocation::TokenRange { .. } => "token_range"@,
        ReferenceLocation::Page { .. } => "page"@,
        ReferenceLocation::Block { .. } => "block"@,
        ReferenceLocation::FileLocation { .. } => "file_location"@,
    }
}

/// The stored form of an optional offset.
pub open spec fn stored_offset(offset: Option<usize>) -> Option<i64> {
    match offset {
        Some(value) => Some(value as i64),
        None => None,
    }
}

/// The stored form of an optional page number.
pub open spec fn stored_page(page: Option<u32>) -> Option<i64> {
    match page {
        Some(value) => Some(value as i64),
        None => None,
    }
}

/// The stored start offset of a location.
pub open spec fn location_start(location: ReferenceLocation) -> Option<i64> {
    match location {
        ReferenceLocation::CharacterRange { start, .. } => Some(start as i64),
        ReferenceLocation::TokenRange { start, .. } => Some(start as i64),
        ReferenceLocation::FileLocation { start, .. } => stored_offset(start),
        _ => None,
    }
}

/// The stored end offset of a location.
pub open spec fn location_end(location: ReferenceLocation) -> Option<i64> {
    match location {
        ReferenceLocation::CharacterRange { end, .. } => Some(end as i64),
        ReferenceLocation::TokenRange { end, .. } => Some(end as i64),
        ReferenceLocation::FileLocation { end, .. } => stored_offset(end),
        _ => None,
    }
}

/// The stored page of a location.
pub open spec fn location_page(location: ReferenceLocation) -> Option<i64> {
    match location {
        ReferenceLocation::Page { page } => Some(page as i64),
        ReferenceLocation::FileLocation { page, .. } => stored_page(page),
        _ => None,
    }
}

/// Whether a text is the stored form of a UUID: its hyphenated form, read back as the same bits.
pub open spec fn holds_uuid(text: Seq<char>, bits: u128) -> bool {
    text == uuid_text(bits) && parsed_uuid(text) == Some(bits)
}

/// The columns of a stored reference.
#[derive(Debug, Clone, PartialEq, Eq)]
pub struct ReferenceRecord {
    pub id: String,
    pub source_id: String,
    pub source_type: String,
    pub target_id: String,
    pub target_type: String,
    pub location_type: String,
    pub start_offset: Option<i64>,
    pub end_offset: Option<i64>,
    pub page: Option<i64>,
    pub block_id: Option<String>,
}

/// Whether a record is the stored form of a reference.
pub open spec fn encodes_reference(record: ReferenceRecord, reference: Reference) -> bool {
    &&& holds_uuid(record.id@, reference.id@)
    &&& holds_uuid(record.source_id@, reference.source@)
    &&& record.source_type@ == entity_type_name(reference.source_type)
    &&& holds_uuid(record.target_id@, reference.target@)
    &&& record.target_type@ == entity_type_name(reference.target_type)
    &&& record.location_type@ == location_type_name(reference.location)
    &&& record.start_offset == location_start(reference.location)
    &&& record.end_offset == location_end(reference.location)
    &&& record.page == location_page(reference.location)
    &&& match reference.location {
        ReferenceLocation::Block { block_id } => record.block_id matches Some(text) && holds_uuid(
            text@,
            block_id@,
        ),
        _ => record.block_id is None,
    }
}

/// The stored form of an optional offset.
fn offset_column(offset: Option<usize>) -> (column: Option<i64>)
    ensures
        column == stored_offset(offset),
{
    match offset {
        Some(value) => Some(value as i64),
        None => None,
    }
}

/// The stored form of an optional page number.
fn page_column(page: Option<u32>) -> (column: Option<i64>)
    ensures
        column == stored_page(page),
{
    match page {
        Some(value) => Some(value as i64),
        None => None,
    }
}

/// The record under which a reference is stored.
pub fn reference_to_record(reference: &Reference) -> (record: ReferenceRecord)
    ensures
        encodes_reference(record, *reference),
{
    let (location_type, start_offset, end_offset, page, block_id) = match reference.location {
        ReferenceLocation::CharacterRange { start, end } => (
            "character_range",
            Some(start as i64),
            Some(end as i64),
            None,
            None,
        ),
        ReferenceLocation::TokenRange { start, end } => (
            "token_range",
            Some(start as i64),
            Some(end as i64),
            None,
            None,
        ),
        ReferenceLocation::Page { page } => ("page", None, None, Some(page as i64), None),
        ReferenceLocation::Block { block_id } => (
            "block",
            None,
            None,
            None,
            Some(entity_id_text(block_id)),
        ),
        ReferenceLocation::FileLocation { page, start, end } => (
            "file_location",
            offset_column(start),
            offset_column(end),
            page_column(page),
            None,
        ),
    };
    ReferenceRecord {
        id: entity_id_text(reference.id),
        source_id: entity_id_text(reference.source),
        source_type: entity_type_to_string(reference.source_type).to_owned(),
        target_id: entity_id_text(reference.target),
        target_type: entity_type_to_string(reference.target_type).to_owned(),
        location_type: location_type.to_owned(),
        start_offset,
        end_offset,
        page,
        block_id,
    }
}

/// The location that a record describes, or why it describes none.
pub open spec fn decoded_location(record: ReferenceRecord) -> Result<ReferenceLocation, DecodeError> {
    let kind = record.location_type@;
    if kind == "character_range"@ || kind == "token_range"@ {
        match (record.start_offset, record.end_offset) {
            (None, _) => Err(DecodeError::MissingStartOffset),
            (Some(_), None) => Err(DecodeError::MissingEndOffset),
            (Some(start), Some(end)) => if kind == "character_range"@ {
                Ok(ReferenceLocation::CharacterRange { start: start as usize, end: end as usize })
            } else {
                Ok(ReferenceLocation::TokenRange { start: start as usize, end: end as usize })
            },
        }
    } else if kind == "page"@ {
        match record.page {
            None => Err(DecodeError::MissingPage),
            Some(page) => Ok(ReferenceLocation::Page { page: page as u32 }),
        }
    } else if kind == "block"@ {
        match record.block_id {
            None => Err(DecodeError::MissingBlockId),
            Some(text) => match parsed_uuid(text@) {
                None => Err(DecodeError::InvalidEntityId),
                Some(bits) => Ok(ReferenceLocation::Block { block_id: EntityId(bits) }),
            },
        }
    } else if kind == "file_location"@ {
        Ok(
            ReferenceLocation::FileLocation {
                page: match record.page {
                    Some(page) => Some(page as u32),
                    None => None,
                },
                start: match record.start_offset {
                    Some(start) => Some(start as usize),
                    None => None,
                },
                end: match record.end_offset {
                    Some(end) => Some(end as usize),
                    None => None,
                },
            },
        )
    } else {
        Err(DecodeError::UnknownLocationType)
    }
}

/// The reference that a record describes, or the first reason it describes none:
/// the identities are read first, then the entity types, then the location.
pub open spec fn decoded_reference(record: ReferenceRecord) -> Result<Reference, DecodeError> {
    if parsed_uuid(record.id@) is None || parsed_uuid(record.source_id@) is None || parsed_uuid(
        record.target_id@,
    ) is None {
        Err(DecodeError::InvalidEntityId)
    } else if entity_type_named(record.source_type@) is None || entity_type_named(
        record.target_type@,
    ) is None {
        Err(DecodeError::UnknownEntityType)
    } else {
        match decoded_location(record) {
            Err(error) => Err(error),
            Ok(location) => Ok(
                Reference {
                    id: EntityId(parsed_uuid(record.id@)->0),
                    source: EntityId(parsed_uuid(record.source_id@)->0),
                    source_type: entity_type_named(record.source_type@)->0,
                    target: EntityId(parsed_uuid(record.target_id@)->0),
                    target_type: entity_type_named(record.target_type@)->0,
                    location,
                },
            ),
        }
    }
}

/// The start and end offsets of a range, or which of them is missing.
fn range_offsets(record: &ReferenceRecord) -> (offsets: Result<(usize, usize), DecodeError>)
    ensures
        offsets == match (record.start_offset, record.end_offset) {
            (None, _) => Err(DecodeError::MissingStartOffset),
            (Some(_), None) => Err(DecodeError::MissingEndOffset),
            (Some(start), Some(end)) => Ok((start as usize, end as usize)),
        },
{
    let start = match record.start_offset {
        Some(start) => start as usize,
        None => return Err(DecodeError::MissingStartOffset),
    };
    let end = match record.end_offset {
        Some(end) => end as usize,
        None => return Err(DecodeError::MissingEndOffset),
    };
    Ok((start, end))
}

/// The location that a record describes, or why it describes none.
fn location_from_record(record: &ReferenceRecord) -> (location: Result<ReferenceLocation, DecodeError>)
    ensures
        location == decoded_location(*record),
{
    let kind = record.location_type.as_str();
    if text_equals(kind, "character_range") {
        let (start, end) = range_offsets(record)?;
        Ok(ReferenceLocation::CharacterRange { start, end })
    } else if text_equals(kind, "token_range") {
        let (start, end) = range_offsets(record)?;
        Ok(ReferenceLocation::TokenRange { start, end })
    } else if text_equals(kind, "page") {
        match record.page {
            Some(page) => Ok(ReferenceLocation::Page { page: page as u32 }),
            None => Err(DecodeError::MissingPage),
        }
    } else if text_equals(kind, "block") {
        match &record.block_id {
            Some(text) => match parse_entity_id(text.as_str()) {
                Some(block_id) => Ok(ReferenceLocation::Block { block_id }),
                None => Err(DecodeError::InvalidEntityId),
            },
            None => Err(DecodeError::MissingBlockId),
        }
    } else if text_equals(kind, "file_location") {
        Ok(
            ReferenceLocation::FileLocation {
                page: match record.page {
                    Some(page) => Some(page as u32),
                    None => None,
                },
                start: match record.start_offset {
                    Some(start) => Some(start as usize),
                    None => None,
                },
                end: match record.end_offset {
                    Some(end) => Some(end as usize),
                    None => None,
                },
            },
        )
    } else {
        Err(DecodeError::UnknownLocationType)
    }
}

/// The reference that a stored record describes, or the first reason it describes none.
pub fn reference_from_row(row: ReferenceRecord) -> (reference: Result<Reference, DecodeError>)
    ensures
        reference == decoded_reference(row),
{
    let id = match parse_entity_id(row.id.as_str()) {
        Some(id) => id,
        None => return Err(DecodeError::InvalidEntityId),
    };
    let source = match parse_entity_id(row.source_id.as_str()) {
        Some(id) => id,
        None => return Err(DecodeError::InvalidEntityId),
    };
    let target = match parse_entity_id(row.target_id.as_str()) {
        Some(id) => id,
        None => return Err(DecodeError::InvalidEntityId),
    };
    let source_type = entity_type_from_string(row.source_type.clone())?;
    let target_type = entity_type_from_string(row.target_type.clone())?;
    let location = location_from_record(&row)?;
    Ok(Reference { id, source, source_type, target, target_type, location })
}

/// An offset survives being stored.
pub(crate) proof fn lemma_offset_round_trip(offset: usize)
    ensures
        ((offset as i64) as usize) == offset,
{
    assert(((offset as i64) as usize) == offset) by (bit_vector);
}

/// A page number survives being stored.
proof fn lemma_page_round_trip(page: u32)
    ensures
        ((page as i64) as u32) == page,
{
    assert(((page as i64) as u32) == page) by (bit_vector);
}

/// The record under which a reference is stored holds, column by column: each identity
/// as its UUID text; the names of the two entity types; the name of the location's kind;
/// a range's start in `start_offset` and its end in `end_offset`; a page number in `page`;
/// a block's identity in `block_id`; and nothing in the columns its location does not use.
pub proof fn lemma_reference_columns(record: ReferenceRecord, reference: Reference)
    requires
        encodes_reference(record, reference),
    ensures
        record.id@ == uuid_text(reference.id@),
        record.source_id@ == uuid_text(reference.source@),
        record.target_id@ == uuid_text(reference.target@),
        record.source_type@ == entity_type_name(reference.source_type),
        record.target_type@ == entity_type_name(reference.target_type),
        match reference.location {
            ReferenceLocation::CharacterRange { start, end } => {
                &&& record.location_type@ == "character_range"@
                &&& record.start_offset == Some(start as i64)
                &&& record.end_offset == Some(end as i64)
                &&& record.page is None
                &&& record.block_id is None
            },
            ReferenceLocation::TokenRange { start, end } => {
                &&& record.location_type@ == "token_range"@
                &&& record.start_offset == Some(start as i64)
                &&& record.end_offset == Some(end as i64)
                &&& record.page is None
                &&& record.block_id is None
            },
            ReferenceLocation::Page { page } => {
                &&& record.location_type@ == "page"@
                &&& record.start_offset is None
                &&& record.end_offset is None
                &&& record.page == Some(page as i64)
                &&& record.block_id is None
            },
            ReferenceLocation::Block { block_id } => {
                &&& record.location_type@ == "block"@
                &&& record.start_offset is None
                &&& record.end_offset is None
                &&& record.page is None
                &&& record.block_id matches Some(text) && text@ == uuid_text(block_id@)
            },
            ReferenceLocation::FileLocation { page, start, end } => {
                &&& record.location_type@ == "file_location"@
                &&& record.start_offset == match start {
                    Some(offset) => Some(offset as i64),
                    None => None,
                }
                &&& record.end_offset == match end {
                    Some(offset) => Some(offset as i64),
                    None => None,
                }
                &&& record.page == match page {
                    Some(number) => Some(number as i64),
                    None => None,
                }
                &&& record.block_id is None
            },
        },
{
}

/// A reference read from a record takes each value from its own column: the identities
/// from `id`, `source_id` and `target_id`, the entity types from `source_type` and
/// `target_type`, the location's kind from `location_type`, a range's start from
/// `start_offset` and its end from `end_offset`, a page number from `page`, and a block's
/// identity from `block_id`.
pub proof fn lemma_reference_read_columns(record: ReferenceRecord)
    ensures
        decoded_reference(record) matches Ok(reference) ==> {
            &&& parsed_uuid(record.id@) == Some(reference.id@)
            &&& parsed_uuid(record.source_id@) == Some(reference.source@)
            &&& parsed_uuid(record.target_id@) == Some(reference.target@)
            &&& entity_type_named(record.source_type@) == Some(reference.source_type)
            &&& entity_type_named(record.target_type@) == Some(reference.target_type)
            &&& match reference.location {
                ReferenceLocation::CharacterRange { start, end } => {
                    &&& record.location_type@ == "character_range"@
                    &&& record.start_offset matches Some(offset) && start == offset as usize
                    &&& record.end_offset matches Some(offset) && end == offset as usize
                },
                ReferenceLocation::TokenRange { start, end } => {
                    &&& record.location_type@ == "token_range"@
                    &&& record.start_offset matches Some(offset) && start == offset as usize
                    &&& record.end_offset matches Some(offset) && end == offset as usize
                },
                ReferenceLocation::Page { page } => {
                    &&& record.location_type@ == "page"@
                    &&& record.page matches Some(number) && page == number as u32
                },
                ReferenceLocation::Block { block_id } => {
                    &&& record.location_type@ == "block"@
                    &&& record.block_id matches Some(text) && parsed_uuid(text@) == Some(block_id@)
                },
                ReferenceLocation::FileLocation { page, start, end } => {
                    &&& record.location_type@ == "file_location"@
                    &&& start == match record.start_offset {
                        Some(offset) => Some(offset as usize),
                        None => None,
                    }
                    &&& end == match record.end_offset {
                        Some(offset) => Some(offset as usize),
                        None => None,
                    }
                    &&& page == match record.page {
                        Some(number) => Some(number as u32),
                        None => None,
                    }
                },
            }
        },
{
}

/// Reading back the record under which a reference is stored gives that reference.
pub proof fn lemma_reference_round_trip(record: ReferenceRecord, reference: Reference)
    requires
        encodes_reference(record, reference),
    ensures
        decoded_reference(record) == Ok::<Reference, DecodeError>(reference),
{
    lemma_entity_type_name_round_trip(reference.source_type);
    lemma_entity_type_name_round_trip(reference.target_type);
    reveal_strlit("character_range");
    reveal_strlit("token_range");
    reveal_strlit("page");
    reveal_strlit("block");
    reveal_strlit("file_location");
    assert("character_range"@.len() == 15 && "token_range"@.len() == 11 && "page"@.len() == 4);
    assert("block"@.len() == 5 && "file_location"@.len() == 13);
    match reference.location {
        ReferenceLocation::CharacterRange { start, end } => {
            lemma_offset_round_trip(start);
            lemma_offset_round_trip(end);
        },
        ReferenceLocation::TokenRange { start, end } => {
            lemma_offset_round_trip(start);
            lemma_offset_round_trip(end);
        },
        ReferenceLocation::Page { page } => {
            lemma_page_round_trip(page);
        },
        ReferenceLocation::Block { block_id } => {},
        ReferenceLocation::FileLocation { page, start, end } => {
            if let Some(p) = page {
                lemma_page_round_trip(p);
            }
            if let Some(s) = start {
                lemma_offset_round_trip(s);
            }
            if let Some(e) = end {
                lemma_offset_round_trip(e);
            }
        },
    }
}

} // verus!
