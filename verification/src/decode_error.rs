use vstd::prelude::*;

verus! {

/// Why a stored record does not describe a valid entity.
#[derive(Debug, Clone, Copy, PartialEq, Eq, Structural)]
pub enum DecodeError {
    EmptyKanjiCharacter,
    MultipleKanjiCharacters,
    InvalidKanjiId,
    InvalidGrammarId,
    InvalidSentenceEntityId,
    InvalidRelationshipEntityId,
    UnknownRelationshipKind,
    InvalidEntityId,
    UnknownEntityType,
    MissingStartOffset,
    MissingEndOffset,
    MissingPage,
    MissingBlockId,
    UnknownLocationType,
}

impl DecodeError {
    /// The message that describes the error.
    pub fn message(&self) -> (message: &'static str)
        ensures
            message@ == match *self {
                DecodeError::EmptyKanjiCharacter => "kanji character is empty"@,
                DecodeError::MultipleKanjiCharacters => "kanji character contains more than one character"@,
                DecodeError::InvalidKanjiId => "invalid kanji ID"@,
                DecodeError::InvalidGrammarId => "invalid grammar ID"@,
                DecodeError::InvalidSentenceEntityId => "invalid sentence entity ID"@,
                DecodeError::InvalidRelationshipEntityId => "invalid relationship entity ID"@,
                DecodeError::UnknownRelationshipKind => "unknown relationship kind"@,
                DecodeError::InvalidEntityId => "invalid entity ID"@,
                DecodeError::UnknownEntityType => "unknown entity type"@,
                DecodeError::MissingStartOffset => "missing start offset"@,
                DecodeError::MissingEndOffset => "missing end offset"@,
                DecodeError::MissingPage => "missing page"@,
                DecodeError::MissingBlockId => "missing block ID"@,
                DecodeError::UnknownLocationType => "unknown reference location type"@,
            },
    {
        match self {
            DecodeError::EmptyKanjiCharacter => "kanji character is empty",
            DecodeError::MultipleKanjiCharacters => "kanji character contains more than one character",
            DecodeError::InvalidKanjiId => "invalid kanji ID",
            DecodeError::InvalidGrammarId => "invalid grammar ID",
            DecodeError::InvalidSentenceEntityId => "invalid sentence entity ID",
            DecodeError::InvalidRelationshipEntityId => "invalid relationship entity ID",
            DecodeError::UnknownRelationshipKind => "unknown relationship kind",
            DecodeError::InvalidEntityId => "invalid entity ID",
            DecodeError::UnknownEntityType => "unknown entity type",
            DecodeError::MissingStartOffset => "missing start offset",
            DecodeError::MissingEndOffset => "missing end offset",
            DecodeError::MissingPage => "missing page",
            DecodeError::MissingBlockId => "missing block ID",
            DecodeError::UnknownLocationType => "unknown reference location type",
        }
    }
}

} // verus!
