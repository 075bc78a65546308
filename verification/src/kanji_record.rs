//! The storage form of kanji entries: one record for the entry and one row per
//! reading and per meaning, each with its position.

use crate::decode_error::DecodeError;
use crate::id::EntityId;
use crate::kanji::KanjiEntry;
use crate::reference_record::holds_uuid;
use crate::text::{char_text, entity_id_text, parse_entity_id, parsed_uuid, uuid_text};
use vstd::prelude::*;

verus! {

/// The columns of a stored kanji entry.
#[derive(Debug, Clone, PartialEq, Eq)]
pub struct KanjiRecord {
    pub id: String,
    pub character: String,
    pub stroke_count: Option<i64>,
    pub grade: Option<i64>,
    pub jlpt_level: Option<i64>,
}

/// The stored form of an optional stroke count.
pub open spec fn stored_count(count: Option<u16>) -> Option<i64> {
    match count {
        Some(value) => Some(value as i64),
        None => None,
    }
}

/// The stored form of an optional grade or level.
pub open spec fn stored_level(level: Option<u8>) -> Option<i64> {
    match level {
        Some(value) => Some(value as i64),
        None => None,
    }
}

/// Whether a record is the stored form of a kanji entry's own columns.
pub open spec fn encodes_kanji(record: KanjiRecord, kanji: KanjiEntry) -> bool {
    &&& holds_uuid(record.id@, kanji.id@)
    &&& record.character@ == seq![kanji.character]
    &&& record.stroke_count == stored_count(kanji.stroke_count)
    &&& record.grade == stored_level(kanji.grade)
    &&& record.jlpt_level == stored_level(kanji.jlpt_level)
}

fn count_column(count: Option<u16>) -> (column: Option<i64>)
    ensures
        column == stored_count(count),
{
    match count {
        Some(value) => Some(value as i64),
        None => None,
    }
}

fn level_column(level: Option<u8>) -> (column: Option<i64>)
    ensures
        column == stored_level(level),
{
    match level {
        Some(value) => Some(value as i64),
        None => None,
    }
}

/// The record under which a kanji entry's own columns are stored.
pub fn kanji_to_record(kanji: &KanjiEntry) -> (record: KanjiRecord)
    ensures
        encodes_kanji(record, *kanji),
{
    KanjiRecord {
        id: entity_id_text(kanji.id),
        character: char_text(kanji.character),
        stroke_count: count_column(kanji.stroke_count),
        grade: level_column(kanji.grade),
        jlpt_level: level_column(kanji.jlpt_level),
    }
}

/// The kanji entry that a record describes together with its readings and meanings,
/// or the first reason it describes none: the character is checked before the identity.
pub open spec fn decoded_kanji(
    record: KanjiRecord,
    on_readings: Vec<String>,
    kun_readings: Vec<String>,
    meanings: Vec<String>,
) -> Result<KanjiEntry, DecodeError> {
    if record.character@.len() == 0 {
        Err(DecodeError::EmptyKanjiCharacter)
    } else if record.character@.len() > 1 {
        Err(DecodeError::MultipleKanjiCharacters)
    } else {
        match parsed_uuid(record.id@) {
            None => Err(DecodeError::InvalidKanjiId),
            Some(bits) => Ok(
                KanjiEntry {
                    id: EntityId(bits),
                    character: record.character@[0],
                    on_readings,
                    kun_readings,
                    meanings,
                    stroke_count: match record.stroke_count {
                        Some(value) => Some(value as u16),
                        None => None,
                    },
                    grade: match record.grade {
                        Some(value) => Some(value as u8),
                        None => None,
                    },
                    jlpt_level: match record.jlpt_level {
                        Some(value) => Some(value as u8),
                        None => None,
                    },
                },
            ),
        }
    }
}

/// The kanji entry that a stored record describes together with its readings and
/// meanings in position order, or the first reason it describes none.
pub fn kanji_from_record(
    record: &KanjiRecord,
    on_readings: Vec<String>,
    kun_readings: Vec<String>,
    meanings: Vec<String>,
) -> (kanji: Result<KanjiEntry, DecodeError>)
    ensures
        kanji == decoded_kanji(*record, on_readings, kun_readings, meanings),
{
    let text = record.character.as_str();
    let length = text.unicode_len();
    if length == 0 {
        return Err(DecodeError::EmptyKanjiCharacter);
    }
    if length > 1 {
        return Err(DecodeError::MultipleKanjiCharacters);
    }
    let character = text.get_char(0);
    let id = match parse_entity_id(record.id.as_str()) {
        Some(id) => id,
        None => return Err(DecodeError::InvalidKanjiId),
    };
    Ok(
        KanjiEntry {
            id,
            character,
            on_readings,
            kun_readings,
            meanings,
            stroke_count: match record.stroke_count {
                Some(value) => Some(value as u16),
                None => None,
            },
            grade: match record.grade {
                Some(value) => Some(value as u8),
                None => None,
            },
            jlpt_level: match record.jlpt_level {
                Some(value) => Some(value as u8),
                None => None,
            },
        },
    )
}

/// The record under which a kanji entry is stored holds, column by column: the identity as
/// its UUID text, the character as a one-character text, and the stroke count, the grade and
/// the JLPT level each in its own column.
pub proof fn lemma_kanji_columns(record: KanjiRecord, kanji: KanjiEntry)
    requires
        encodes_kanji(record, kanji),
    ensures
        record.id@ == uuid_text(kanji.id@),
        record.character@ == seq![kanji.character],
        record.stroke_count == match kanji.stroke_count {
            Some(count) => Some(count as i64),
            None => None,
        },
        record.grade == match kanji.grade {
            Some(grade) => Some(grade as i64),
            None => None,
        },
        record.jlpt_level == match kanji.jlpt_level {
            Some(level) => Some(level as i64),
            None => None,
        },
{
}

/// A kanji entry read from a record takes each value from its own column: the identity from
/// `id`, the character from the one-character `character`, the stroke count from
/// `stroke_count`, the grade from `grade` and the JLPT level from `jlpt_level`; the readings
/// and meanings are the lists given, unchanged.
pub proof fn lemma_kanji_read_columns(
    record: KanjiRecord,
    on_readings: Vec<String>,
    kun_readings: Vec<String>,
    meanings: Vec<String>,
)
    ensures
        decoded_kanji(record, on_readings, kun_readings, meanings) matches Ok(kanji) ==> {
            &&& parsed_uuid(record.id@) == Some(kanji.id@)
            &&& record.character@ == seq![kanji.character]
            &&& kanji.on_readings == on_readings
            &&& kanji.kun_readings == kun_readings
            &&& kanji.meanings == meanings
            &&& kanji.stroke_count == match record.stroke_count {
                Some(count) => Some(count as u16),
                None => None,
            }
            &&& kanji.grade == match record.grade {
                Some(grade) => Some(grade as u8),
                None => None,
            }
            &&& kanji.jlpt_level == match record.jlpt_level {
                Some(level) => Some(level as u8),
                None => None,
            }
        },
{
    if decoded_kanji(record, on_readings, kun_readings, meanings) is Ok {
        assert(record.character@ =~= seq![record.character@[0]]);
    }
}

/// Reading back the record under which a kanji entry is stored, with its readings and
/// meanings, gives that entry.
pub proof fn lemma_kanji_round_trip(record: KanjiRecord, kanji: KanjiEntry)
    requires
        encodes_kanji(record, kanji),
    ensures
        decoded_kanji(record, kanji.on_readings, kanji.kun_readings, kanji.meanings) == Ok::<
            KanjiEntry,
            DecodeError,
        >(kanji),
{
    if let Some(count) = kanji.stroke_count {
        assert(((count as i64) as u16) == count) by (bit_vector);
    }
    if let Some(grade) = kanji.grade {
        assert(((grade as i64) as u8) == grade) by (bit_vector);
    }
    if let Some(level) = kanji.jlpt_level {
        assert(((level as i64) as u8) == level) by (bit_vector);
    }
}

} // verus!
