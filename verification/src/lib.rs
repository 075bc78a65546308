//! Kotobase: the data model of a Japanese language workspace, the in-memory
//! indexes over references and relationships between its entities, and the
//! codecs that turn entities into storage records and back.

mod buckets;
pub mod decode_error;
mod filters;
pub mod grammar;
pub mod grammar_record;
pub mod id;
pub mod kanji;
pub mod kanji_record;
pub mod positions;
pub mod reference;
pub mod reference_index;
pub mod reference_record;
pub mod relationship;
pub mod relationship_index;
pub mod relationship_record;
pub mod section;
pub mod sentence;
pub mod sentence_record;
pub mod text;
pub mod vocabulary;

pub use grammar::GrammarPattern;
pub use id::EntityId;
pub use kanji::KanjiEntry;
pub use reference::{EntityType, Reference, ReferenceLocation};
pub use relationship::{Relationship, RelationshipKind, RelationshipMetadata};
pub use section::Section;
pub use sentence::{GrammarMatch, Sentence, Token};
pub use vocabulary::{PartOfSpeech, VocabularyEntry};
