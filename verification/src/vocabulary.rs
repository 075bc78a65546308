use crate::id::{is_random_uuid, EntityId};
use vstd::prelude::*;

verus! {

/// A broad grammatical classification for a vocabulary entry.
#[derive(Debug, Clone, Copy, PartialEq, Eq, Structural)]
pub enum PartOfSpeech {
    Noun,
    Verb,
    IAdjective,
    NaAdjective,
    Adverb,
    Particle,
    Auxiliary,
    Conjunction,
    Interjection,
    Pronoun,
    Determiner,
    Counter,
    Prefix,
    Suffix,
    Other,
}

/// A Japanese vocabulary entry representing a lexical concept.
#[derive(Debug, Clone, PartialEq, Eq)]
pub struct VocabularyEntry {
    pub id: EntityId,
    pub written_forms: Vec<String>,
    pub readings: Vec<String>,
    pub meanings: Vec<String>,
    pub parts_of_speech: Vec<PartOfSpeech>,
    pub source: Option<String>,
}

impl VocabularyEntry {
    /// An empty entry with a fresh random identity.
    pub fn new() -> (entry: Self)
        ensures
            is_random_uuid(entry.id@),
            entry.written_forms@.len() == 0,
            entry.readings@.len() == 0,
            entry.meanings@.len() == 0,
            entry.parts_of_speech@.len() == 0,
            entry.source is None,
    {
        Self {
            id: EntityId::new(),
            written_forms: Vec::new(),
            readings: Vec::new(),
            meanings: Vec::new(),
            parts_of_speech: Vec::new(),
            source: None,
        }
    }
}

impl Default for VocabularyEntry {
    fn default() -> (entry: Self)
        ensures
            is_random_uuid(entry.id@),
            entry.written_forms@.len() == 0,
            entry.readings@.len() == 0,
            entry.meanings@.len() == 0,
            entry.parts_of_speech@.len() == 0,
            entry.source is None,
    {
        Self::new()
    }
}

} // verus!
