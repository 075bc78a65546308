use crate::id::{is_random_uuid, EntityId};
use vstd::prelude::*;

verus! {

/// A piece of Japanese text represented as a sentence.
#[derive(Debug, Clone, PartialEq, Eq)]
pub struct Sentence {
    pub id: EntityId,
    pub text: String,
    pub translation: Option<String>,
    pub source: Option<String>,
    pub tokens: Vec<Token>,
    pub grammar_matches: Vec<GrammarMatch>,
}

impl Sentence {
    /// A sentence with the given text, a fresh random identity and no analysis.
    pub fn new(text: &str) -> (sentence: Self)
        ensures
            is_random_uuid(sentence.id@),
            sentence.text@ == text@,
            sentence.translation is None,
            sentence.source is None,
            sentence.tokens@.len() == 0,
            sentence.grammar_matches@.len() == 0,
    {
        Self {
            id: EntityId::new(),
            text: text.to_owned(),
            translation: None,
            source: None,
            tokens: Vec::new(),
            grammar_matches: Vec::new(),
        }
    }
}

/// A linguistically analyzed portion of a sentence.
///
/// `start` and `end` refer to character offsets in the sentence's original text.
#[derive(Debug, Clone, PartialEq, Eq)]
pub struct Token {
    pub id: EntityId,
    pub surface: String,
    pub start: usize,
    pub end: usize,
    pub reading: Option<String>,
    pub lemma: Option<String>,
    pub part_of_speech: Option<String>,
    pub vocabulary_id: Option<EntityId>,
}

impl Token {
    /// A token with the given surface form and character offsets and a fresh random identity.
    pub fn new(surface: &str, start: usize, end: usize) -> (token: Self)
        ensures
            is_random_uuid(token.id@),
            token.surface@ == surface@,
            token.start == start,
            token.end == end,
            token.reading is None,
            token.lemma is None,
            token.part_of_speech is None,
            token.vocabulary_id is None,
    {
        Self {
            id: EntityId::new(),
            surface: surface.to_owned(),
            start,
            end,
            reading: None,
            lemma: None,
            part_of_speech: None,
            vocabulary_id: None,
        }
    }
}

/// A detected occurrence of a grammar pattern within a sentence.
#[derive(Debug, Clone, Copy, PartialEq, Eq, Structural)]
pub struct GrammarMatch {
    pub id: EntityId,
    pub grammar_id: EntityId,
    pub start: usize,
    pub end: usize,
}

impl GrammarMatch {
    /// An occurrence of the pattern `grammar_id` between the given offsets, with a fresh random identity.
    pub fn new(grammar_id: EntityId, start: usize, end: usize) -> (grammar_match: Self)
        ensures
            is_random_uuid(grammar_match.id@),
            grammar_match.grammar_id == grammar_id,
            grammar_match.start == start,
            grammar_match.end == end,
    {
        Self { id: EntityId::new(), grammar_id, start, end }
    }
}

} // verus!
