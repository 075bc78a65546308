//! The storage form of grammar patterns: one record for the pattern and one row per
//! meaning, with its position.

use crate::decode_error::DecodeError;
use crate::grammar::GrammarPattern;
use crate::id::EntityId;
use crate::reference_record::holds_uuid;
use crate::text::{entity_id_text, parse_entity_id, parsed_uuid, uuid_text};
use vstd::prelude::*;

verus! {

/// The columns of a stored grammar pattern.
#[derive(Debug, Clone, PartialEq, Eq)]
pub struct GrammarRecord {
    pub id: String,
    pub name: String,
    pub formation: String,
    pub usage: String,
    pub source: Option<String>,
}

/// Whether a record is the stored form of a grammar pattern's own columns.
pub open spec fn encodes_grammar(record: GrammarRecord, grammar: GrammarPattern) -> bool {
    &&& holds_uuid(record.id@, grammar.id@)
    &&& record.name == grammar.name
    &&& record.formation == grammar.formation
    &&& record.usage == grammar.usage
    &&& record.source == grammar.source
}

fn copy_text(text: &Option<String>) -> (copy: Option<String>)
    ensures
        copy == *text,
{
    match text {
        Some(value) => Some(value.clone()),
        None => None,
    }
}

/// The record under which a grammar pattern's own columns are stored.
pub fn grammar_to_record(grammar: &GrammarPattern) -> (record: GrammarRecord)
    ensures
        encodes_grammar(record, *grammar),
{
    GrammarRecord {
        id: entity_id_text(grammar.id),
        name: grammar.name.clone(),
        formation: grammar.formation.clone(),
        usage: grammar.usage.clone(),
        source: copy_text(&grammar.source),
    }
}

/// The grammar pattern that a record describes together with its meanings, or why it
/// describes none.
pub open spec fn decoded_grammar(record: GrammarRecord, meanings: Vec<String>) -> Result<
    GrammarPattern,
    DecodeError,
> {
    match parsed_uuid(record.id@) {
        None => Err(DecodeError::InvalidGrammarId),
        Some(bits) => Ok(
            GrammarPattern {
                id: EntityId(bits),
                name: record.name,
                formation: record.formation,
                meanings,
                usage: record.usage,
                source: record.source,
            },
        ),
    }
}

/// The grammar pattern that a stored record describes together with its meanings in
/// position order, or why it describes none.
pub fn grammar_from_record(record: GrammarRecord, meanings: Vec<String>) -> (grammar: Result<
    GrammarPattern,
    DecodeError,
>)
    ensures
        grammar == decoded_grammar(record, meanings),
{
    let id = match parse_entity_id(record.id.as_str()) {
        Some(id) => id,
        None => return Err(DecodeError::InvalidGrammarId),
    };
    Ok(
        GrammarPattern {
            id,
            name: record.name,
            formation: record.formation,
            meanings,
            usage: record.usage,
            source: record.source,
        },
    )
}

/// The record under which a grammar pattern is stored holds, column by column: the identity
/// as its UUID text, and the name, the formation, the usage and the source each in its own
/// column.
pub proof fn lemma_grammar_columns(record: GrammarRecord, grammar: GrammarPattern)
    requires
        encodes_grammar(record, grammar),
    ensures
        record.id@ == uuid_text(grammar.id@),
        record.name@ == grammar.name@,
        record.formation@ == grammar.formation@,
        record.usage@ == grammar.usage@,
        record.source == grammar.source,
{
}

/// A grammar pattern read from a record takes each value from its own column: the identity
/// from `id`, and the name, the formation, the usage and the source from the columns of those
/// names; the meanings are the list given, unchanged.
pub proof fn lemma_grammar_read_columns(record: GrammarRecord, meanings: Vec<String>)
    ensures
        decoded_grammar(record, meanings) matches Ok(grammar) ==> {
            &&& parsed_uuid(record.id@) == Some(grammar.id@)
            &&& grammar.name@ == record.name@
            &&& grammar.formation@ == record.formation@
            &&& grammar.usage@ == record.usage@
            &&& grammar.source == record.source
            &&& grammar.meanings == meanings
        },
{
}

/// Reading back the record under which a grammar pattern is stored, with its meanings,
/// gives that pattern.
pub proof fn lemma_grammar_round_trip(record: GrammarRecord, grammar: GrammarPattern)
    requires
        encodes_grammar(record, grammar),
    ensures
        decoded_grammar(record, grammar.meanings) == Ok::<GrammarPattern, DecodeError>(grammar),
{
}

} // verus!
