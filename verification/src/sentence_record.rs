//! The storage form of sentences: one record for the sentence, one row per token with
//! its position, and one row per grammar match.

use crate::decode_error::DecodeError;
use crate::id::EntityId;
use crate::reference_record::{holds_uuid, lemma_offset_round_trip};
use crate::sentence::{GrammarMatch, Sentence, Token};
use crate::text::{entity_id_text, parse_entity_id, parsed_uuid, uuid_text};
use vstd::prelude::*;

verus! {

/// The columns of a stored sentence.
#[derive(Debug, Clone, PartialEq, Eq)]
pub struct SentenceRecord {
    pub id: String,
    pub text: String,
    pub translation: Option<String>,
    pub source: Option<String>,
}

/// The columns of a stored token.
#[derive(Debug, Clone, PartialEq, Eq)]
pub struct TokenRecord {
    pub id: String,
    pub position: i64,
    pub surface: String,
    pub start_offset: i64,
    pub end_offset: i64,
    pub reading: Option<String>,
    pub lemma: Option<String>,
    pub part_of_speech: Option<String>,
    pub vocabulary_id: Option<String>,
}

/// The columns of a stored grammar match.
#[derive(Debug, Clone, PartialEq, Eq)]
pub struct GrammarMatchRecord {
    pub id: String,
    pub grammar_id: String,
    pub start_offset: i64,
    pub end_offset: i64,
}

/// Whether a record is the stored form of a sentence's own columns.
pub open spec fn encodes_sentence(record: SentenceRecord, sentence: Sentence) -> bool {
    &&& holds_uuid(record.id@, sentence.id@)
    &&& record.text == sentence.text
    &&& record.translation == sentence.translation
    &&& record.source == sentence.source
}

/// Whether a record is the stored form of a token at the given position of its sentence.
pub open spec fn encodes_token(record: TokenRecord, token: Token, position: int) -> bool {
    &&& holds_uuid(record.id@, token.id@)
    &&& record.position == position as i64
    &&& record.surface == token.surface
    &&& record.start_offset == token.start as i64
    &&& record.end_offset == token.end as i64
    &&& record.reading == token.reading
    &&& record.lemma == token.lemma
    &&& record.part_of_speech == token.part_of_speech
    &&& match token.vocabulary_id {
        Some(vocabulary_id) => record.vocabulary_id matches Some(text) && holds_uuid(
            text@,
            vocabulary_id@,
        ),
        None => record.vocabulary_id is None,
    }
}

/// Whether a record is the stored form of a grammar match.
pub open spec fn encodes_grammar_match(record: GrammarMatchRecord, grammar_match: GrammarMatch) -> bool {
    &&& holds_uuid(record.id@, grammar_match.id@)
    &&& holds_uuid(record.grammar_id@, grammar_match.grammar_id@)
    &&& record.start_offset == grammar_match.start as i64
    &&& record.end_offset == grammar_match.end as i64
}

fn copy_text(text: &Option<String>) -> (copy: Option<String>)
    ensures
        copy == *text,
{
    match text {
        Some(value) => Some(value.clone()),
        None => None,
    }
}

/// The record under which a sentence's own columns are stored.
pub fn sentence_to_record(sentence: &Sentence) -> (record: SentenceRecord)
    ensures
        encodes_sentence(record, *sentence),
{
    SentenceRecord {
        id: entity_id_text(sentence.id),
        text: sentence.text.clone(),
        translation: copy_text(&sentence.translation),
        source: copy_text(&sentence.source),
    }
}

/// The record under which a token at the given position is stored.
fn token_to_record(token: &Token, position: usize) -> (record: TokenRecord)
    ensures
        encodes_token(record, *token, position as int),
{
    TokenRecord {
        id: entity_id_text(token.id),
        position: position as i64,
        surface: token.surface.clone(),
        start_offset: token.start as i64,
        end_offset: token.end as i64,
        reading: copy_text(&token.reading),
        lemma: copy_text(&token.lemma),
        part_of_speech: copy_text(&token.part_of_speech),
        vocabulary_id: match token.vocabulary_id {
            Some(vocabulary_id) => Some(entity_id_text(vocabulary_id)),
            None => None,
        },
    }
}

/// The records under which the tokens of a sentence are stored, in order, each with its position.
pub fn token_records(sentence: &Sentence) -> (records: Vec<TokenRecord>)
    ensures
        records@.len() == sentence.tokens@.len(),
        forall|j: int|
            0 <= j < records@.len() ==> encodes_token(#[trigger] records@[j], sentence.tokens@[j], j),
{
    let mut records: Vec<TokenRecord> = Vec::new();
    let mut j: usize = 0;
    while j < sentence.tokens.len()
        invariant
            0 <= j <= sentence.tokens@.len(),
            records@.len() == j,
            forall|k: int| 0 <= k < j ==> encodes_token(#[trigger] records@[k], sentence.tokens@[k], k),
        decreases sentence.tokens@.len() - j,
    {
        records.push(token_to_record(&sentence.tokens[j], j));
        j += 1;
    }
    records
}

/// The records under which the grammar matches of a sentence are stored, in order.
pub fn grammar_match_records(sentence: &Sentence) -> (records: Vec<GrammarMatchRecord>)
    ensures
        records@.len() == sentence.grammar_matches@.len(),
        forall|j: int|
            0 <= j < records@.len() ==> encodes_grammar_match(
                #[trigger] records@[j],
                sentence.grammar_matches@[j],
            ),
{
    let mut records: Vec<GrammarMatchRecord> = Vec::new();
    let mut j: usize = 0;
    while j < sentence.grammar_matches.len()
        invariant
            0 <= j <= sentence.grammar_matches@.len(),
            records@.len() == j,
            forall|k: int|
                0 <= k < j ==> encodes_grammar_match(#[trigger] records@[k], sentence.grammar_matches@[k]),
        decreases sentence.grammar_matches@.len() - j,
    {
        let grammar_match = sentence.grammar_matches[j];
        records.push(
            GrammarMatchRecord {
                id: entity_id_text(grammar_match.id),
                grammar_id: entity_id_text(grammar_match.grammar_id),
                start_offset: grammar_match.start as i64,
                end_offset: grammar_match.end as i64,
            },
        );
        j += 1;
    }
    records
}

/// The token that a record describes, or why it describes none: its identity is read
/// before the vocabulary entry it refers to.
pub open spec fn decoded_token(record: TokenRecord) -> Result<Token, DecodeError> {
    match parsed_uuid(record.id@) {
        None => Err(DecodeError::InvalidSentenceEntityId),
        Some(bits) => {
            let vocabulary_id = match record.vocabulary_id {
                None => Some(None),
                Some(text) => match parsed_uuid(text@) {
                    None => None,
                    Some(vocabulary_bits) => Some(Some(EntityId(vocabulary_bits))),
                },
            };
            match vocabulary_id {
                None => Err(DecodeError::InvalidSentenceEntityId),
                Some(vocabulary_id) => Ok(
                    Token {
                        id: EntityId(bits),
                        surface: record.surface,
                        start: record.start_offset as usize,
                        end: record.end_offset as usize,
                        reading: record.reading,
                        lemma: record.lemma,
                        part_of_speech: record.part_of_speech,
                        vocabulary_id,
                    },
                ),
            }
        },
    }
}

/// The tokens that records describe, in order, or the first reason one describes none.
pub open spec fn decoded_tokens(records: Seq<TokenRecord>) -> Result<Seq<Token>, DecodeError>
    decreases records.len(),
{
    if records.len() == 0 {
        Ok(Seq::empty())
    } else {
        match decoded_tokens(records.drop_last()) {
            Err(error) => Err(error),
            Ok(tokens) => match decoded_token(records.last()) {
                Err(error) => Err(error),
                Ok(token) => Ok(tokens.push(token)),
            },
        }
    }
}

/// The grammar match that a record describes, or why it describes none.
pub open spec fn decoded_grammar_match(record: GrammarMatchRecord) -> Result<GrammarMatch, DecodeError> {
    match (parsed_uuid(record.id@), parsed_uuid(record.grammar_id@)) {
        (Some(bits), Some(grammar_bits)) => Ok(
            GrammarMatch {
                id: EntityId(bits),
                grammar_id: EntityId(grammar_bits),
                start: record.start_offset as usize,
                end: record.end_offset as usize,
            },
        ),
        _ => Err(DecodeError::InvalidSentenceEntityId),
    }
}

/// The grammar matches that records describe, in order, or the first reason one describes none.
pub open spec fn decoded_grammar_matches(records: Seq<GrammarMatchRecord>) -> Result<
    Seq<GrammarMatch>,
    DecodeError,
>
    decreases records.len(),
{
    if records.len() == 0 {
        Ok(Seq::empty())
    } else {
        match decoded_grammar_matches(records.drop_last()) {
            Err(error) => Err(error),
            Ok(matches) => match decoded_grammar_match(records.last()) {
                Err(error) => Err(error),
                Ok(grammar_match) => Ok(matches.push(grammar_match)),
            },
        }
    }
}

/// The first reason why records describe no sentence: the tokens are read first, then the
/// grammar matches, then the sentence's own identity.
pub open spec fn sentence_decode_error(
    record: SentenceRecord,
    tokens: Seq<TokenRecord>,
    grammar_matches: Seq<GrammarMatchRecord>,
) -> Option<DecodeError> {
    match decoded_tokens(tokens) {
        Err(error) => Some(error),
        Ok(_) => match decoded_grammar_matches(grammar_matches) {
            Err(error) => Some(error),
            Ok(_) => if parsed_uuid(record.id@) is None {
                Some(DecodeError::InvalidSentenceEntityId)
            } else {
                None
            },
        },
    }
}

/// The token that a stored record describes, or why it describes none.
pub fn token_from_record(record: &TokenRecord) -> (token: Result<Token, DecodeError>)
    ensures
        token == decoded_token(*record),
{
    let id = match parse_entity_id(record.id.as_str()) {
        Some(id) => id,
        None => return Err(DecodeError::InvalidSentenceEntityId),
    };
    let vocabulary_id = match &record.vocabulary_id {
        Some(text) => match parse_entity_id(text.as_str()) {
            Some(vocabulary_id) => Some(vocabulary_id),
            None => return Err(DecodeError::InvalidSentenceEntityId),
        },
        None => None,
    };
    Ok(
        Token {
            id,
            surface: record.surface.clone(),
            start: record.start_offset as usize,
            end: record.end_offset as usize,
            reading: copy_text(&record.reading),
            lemma: copy_text(&record.lemma),
            part_of_speech: copy_text(&record.part_of_speech),
            vocabulary_id,
        },
    )
}

/// The grammar match that a stored record describes, or why it describes none.
pub fn grammar_match_from_record(record: &GrammarMatchRecord) -> (grammar_match: Result<
    GrammarMatch,
    DecodeError,
>)
    ensures
        grammar_match == decoded_grammar_match(*record),
{
    let id = match parse_entity_id(record.id.as_str()) {
        Some(id) => id,
        None => return Err(DecodeError::InvalidSentenceEntityId),
    };
    let grammar_id = match parse_entity_id(record.grammar_id.as_str()) {
        Some(id) => id,
        None => return Err(DecodeError::InvalidSentenceEntityId),
    };
    Ok(
        GrammarMatch {
            id,
            grammar_id,
            start: record.start_offset as usize,
            end: record.end_offset as usize,
        },
    )
}

/// The tokens that stored records describe, in order, or the first reason one describes none.
pub fn tokens_from_records(records: &Vec<TokenRecord>) -> (tokens: Result<Vec<Token>, DecodeError>)
    ensures
        match tokens {
            Ok(tokens) => decoded_tokens(records@) == Ok::<Seq<Token>, DecodeError>(tokens@),
            Err(error) => decoded_tokens(records@) == Err::<Seq<Token>, DecodeError>(error),
        },
{
    let mut tokens: Vec<Token> = Vec::new();
    let mut j: usize = 0;
    assert(records@.take(0) =~= Seq::<TokenRecord>::empty());
    while j < records.len()
        invariant
            0 <= j <= records@.len(),
            decoded_tokens(records@.take(j as int)) == Ok::<Seq<Token>, DecodeError>(tokens@),
        decreases records@.len() - j,
    {
        proof {
            assert(records@.take(j + 1).drop_last() =~= records@.take(j as int));
        }
        let token = token_from_record(&records[j]);
        match token {
            Ok(token) => tokens.push(token),
            Err(error) => {
                proof {
                    lemma_tokens_error_persists(records@, j as int + 1);
                }
                return Err(error);
            },
        }
        j += 1;
    }
    assert(records@.take(records@.len() as int) =~= records@);
    Ok(tokens)
}

/// Once a prefix of token records fails to decode, the whole sequence fails the same way.
proof fn lemma_tokens_error_persists(records: Seq<TokenRecord>, length: int)
    requires
        0 <= length <= records.len(),
        decoded_tokens(records.take(length)) is Err,
    ensures
        decoded_tokens(records) == decoded_tokens(records.take(length)),
    decreases records.len() - length,
{
    if length < records.len() {
        assert(records.take(length + 1).drop_last() =~= records.take(length));
        lemma_tokens_error_persists(records, length + 1);
    } else {
        assert(records.take(length) =~= records);
    }
}

/// Once a prefix of grammar match records fails to decode, the whole sequence fails the same way.
proof fn lemma_matches_error_persists(records: Seq<GrammarMatchRecord>, length: int)
    requires
        0 <= length <= records.len(),
        decoded_grammar_matches(records.take(length)) is Err,
    ensures
        decoded_grammar_matches(records) == decoded_grammar_matches(records.take(length)),
    decreases records.len() - length,
{
    if length < records.len() {
        assert(records.take(length + 1).drop_last() =~= records.take(length));
        lemma_matches_error_persists(records, length + 1);
    } else {
        assert(records.take(length) =~= records);
    }
}

/// The grammar matches that stored records describe, in order, or the first reason one
/// describes none.
pub fn grammar_matches_from_records(records: &Vec<GrammarMatchRecord>) -> (grammar_matches: Result<
    Vec<GrammarMatch>,
    DecodeError,
>)
    ensures
        match grammar_matches {
            Ok(matches) => decoded_grammar_matches(records@) == Ok::<Seq<GrammarMatch>, DecodeError>(
                matches@,
            ),
            Err(error) => decoded_grammar_matches(records@) == Err::<Seq<GrammarMatch>, DecodeError>(
                error,
            ),
        },
{
    let mut matches: Vec<GrammarMatch> = Vec::new();
    let mut j: usize = 0;
    assert(records@.take(0) =~= Seq::<GrammarMatchRecord>::empty());
    while j < records.len()
        invariant
            0 <= j <= records@.len(),
            decoded_grammar_matches(records@.take(j as int)) == Ok::<Seq<GrammarMatch>, DecodeError>(
                matches@,
            ),
        decreases records@.len() - j,
    {
        proof {
            assert(records@.take(j + 1).drop_last() =~= records@.take(j as int));
        }
        match grammar_match_from_record(&records[j]) {
            Ok(grammar_match) => matches.push(grammar_match),
            Err(error) => {
                proof {
                    lemma_matches_error_persists(records@, j as int + 1);
                }
                return Err(error);
            },
        }
        j += 1;
    }
    assert(records@.take(records@.len() as int) =~= records@);
    Ok(matches)
}

/// The sentence that stored records describe, with its tokens and grammar matches in the
/// order of their records, or the first reason they describe none.
pub fn sentence_from_records(
    record: SentenceRecord,
    tokens: &Vec<TokenRecord>,
    grammar_matches: &Vec<GrammarMatchRecord>,
) -> (sentence: Result<Sentence, DecodeError>)
    ensures
        match sentence {
            Ok(sentence) => {
                &&& sentence_decode_error(record, tokens@, grammar_matches@) is None
                &&& parsed_uuid(record.id@) == Some(sentence.id@)
                &&& sentence.text == record.text
                &&& sentence.translation == record.translation
                &&& sentence.source == record.source
                &&& decoded_tokens(tokens@) == Ok::<Seq<Token>, DecodeError>(sentence.tokens@)
                &&& decoded_grammar_matches(grammar_matches@) == Ok::<Seq<GrammarMatch>, DecodeError>(
                    sentence.grammar_matches@,
                )
            },
            Err(error) => sentence_decode_error(record, tokens@, grammar_matches@) == Some(error),
        },
{
    let tokens = tokens_from_records(tokens)?;
    let grammar_matches = grammar_matches_from_records(grammar_matches)?;
    let id = match parse_entity_id(record.id.as_str()) {
        Some(id) => id,
        None => return Err(DecodeError::InvalidSentenceEntityId),
    };
    Ok(
        Sentence {
            id,
            text: record.text,
            translation: record.translation,
            source: record.source,
            tokens,
            grammar_matches,
        },
    )
}

/// The record under which a sentence is stored holds, column by column: the identity as its
/// UUID text, and the text, the translation and the source each in its own column.
pub proof fn lemma_sentence_columns(record: SentenceRecord, sentence: Sentence)
    requires
        encodes_sentence(record, sentence),
    ensures
        record.id@ == uuid_text(sentence.id@),
        record.text@ == sentence.text@,
        record.translation == sentence.translation,
        record.source == sentence.source,
{
}

/// The record under which a token is stored holds, column by column: the identity as its
/// UUID text, the given position, the surface form, the token's start in `start_offset` and
/// its end in `end_offset`, the reading, the lemma and the part of speech each in its own
/// column, and the vocabulary entry's UUID text in `vocabulary_id` when there is one.
pub proof fn lemma_token_columns(record: TokenRecord, token: Token, position: int)
    requires
        encodes_token(record, token, position),
    ensures
        record.id@ == uuid_text(token.id@),
        record.position == position as i64,
        record.surface@ == token.surface@,
        record.start_offset == token.start as i64,
        record.end_offset == token.end as i64,
        record.reading == token.reading,
        record.lemma == token.lemma,
        record.part_of_speech == token.part_of_speech,
        match token.vocabulary_id {
            Some(vocabulary_id) => record.vocabulary_id matches Some(text) && text@ == uuid_text(
                vocabulary_id@,
            ),
            None => record.vocabulary_id is None,
        },
{
}

/// A token read from a record takes each value from its own column: the identity from `id`,
/// the surface form from `surface`, the start from `start_offset` and the end from
/// `end_offset`, the reading, the lemma and the part of speech from the columns of those
/// names, and the vocabulary entry from `vocabulary_id`.
pub proof fn lemma_token_read_columns(record: TokenRecord)
    ensures
        decoded_token(record) matches Ok(token) ==> {
            &&& parsed_uuid(record.id@) == Some(token.id@)
            &&& token.surface@ == record.surface@
            &&& token.start == record.start_offset as usize
            &&& token.end == record.end_offset as usize
            &&& token.reading == record.reading
            &&& token.lemma == record.lemma
            &&& token.part_of_speech == record.part_of_speech
            &&& match token.vocabulary_id {
                Some(vocabulary_id) => record.vocabulary_id matches Some(text) && parsed_uuid(text@)
                    == Some(vocabulary_id@),
                None => record.vocabulary_id is None,
            }
        },
{
}

/// The record under which a grammar match is stored holds, column by column: its identity
/// and the pattern's identity as UUID texts, its start in `start_offset` and its end in
/// `end_offset`.
pub proof fn lemma_grammar_match_columns(record: GrammarMatchRecord, grammar_match: GrammarMatch)
    requires
        encodes_grammar_match(record, grammar_match),
    ensures
        record.id@ == uuid_text(grammar_match.id@),
        record.grammar_id@ == uuid_text(grammar_match.grammar_id@),
        record.start_offset == grammar_match.start as i64,
        record.end_offset == grammar_match.end as i64,
{
}

/// A grammar match read from a record takes each value from its own column: its identity
/// from `id`, the pattern's from `grammar_id`, the start from `start_offset` and the end from
/// `end_offset`.
pub proof fn lemma_grammar_match_read_columns(record: GrammarMatchRecord)
    ensures
        decoded_grammar_match(record) matches Ok(grammar_match) ==> {
            &&& parsed_uuid(record.id@) == Some(grammar_match.id@)
            &&& parsed_uuid(record.grammar_id@) == Some(grammar_match.grammar_id@)
            &&& grammar_match.start == record.start_offset as usize
            &&& grammar_match.end == record.end_offset as usize
        },
{
}

/// Records read as tokens give one token per record, in the order of the records, each the
/// token that its own record describes.
pub proof fn lemma_tokens_read_in_order(records: Seq<TokenRecord>)
    ensures
        decoded_tokens(records) matches Ok(tokens) ==> {
            &&& tokens.len() == records.len()
            &&& forall|j: int|
                0 <= j < records.len() ==> decoded_token(#[trigger] records[j]) == Ok::<
                    Token,
                    DecodeError,
                >(tokens[j])
        },
    decreases records.len(),
{
    if records.len() > 0 {
        lemma_tokens_read_in_order(records.drop_last());
        if let Ok(tokens) = decoded_tokens(records) {
            assert forall|j: int| 0 <= j < records.len() implies decoded_token(#[trigger] records[j])
                == Ok::<Token, DecodeError>(tokens[j]) by {
                if j < records.len() - 1 {
                    assert(records.drop_last()[j] == records[j]);
                }
            }
        }
    }
}

/// Records read as grammar matches give one match per record, in the order of the records,
/// each the match that its own record describes.
pub proof fn lemma_grammar_matches_read_in_order(records: Seq<GrammarMatchRecord>)
    ensures
        decoded_grammar_matches(records) matches Ok(matches) ==> {
            &&& matches.len() == records.len()
            &&& forall|j: int|
                0 <= j < records.len() ==> decoded_grammar_match(#[trigger] records[j]) == Ok::<
                    GrammarMatch,
                    DecodeError,
                >(matches[j])
        },
    decreases records.len(),
{
    if records.len() > 0 {
        lemma_grammar_matches_read_in_order(records.drop_last());
        if let Ok(matches) = decoded_grammar_matches(records) {
            assert forall|j: int| 0 <= j < records.len() implies decoded_grammar_match(
                #[trigger] records[j],
            ) == Ok::<GrammarMatch, DecodeError>(matches[j]) by {
                if j < records.len() - 1 {
                    assert(records.drop_last()[j] == records[j]);
                }
            }
        }
    }
}

/// Reading back the records under which a sentence is stored gives that sentence: its own
/// columns, its tokens in order, and its grammar matches in the order of their records.
pub proof fn lemma_sentence_round_trip(
    record: SentenceRecord,
    tokens: Seq<TokenRecord>,
    grammar_matches: Seq<GrammarMatchRecord>,
    sentence: Sentence,
)
    requires
        encodes_sentence(record, sentence),
        tokens.len() == sentence.tokens@.len(),
        forall|j: int| 0 <= j < tokens.len() ==> encodes_token(#[trigger] tokens[j], sentence.tokens@[j], j),
        grammar_matches.len() == sentence.grammar_matches@.len(),
        forall|j: int|
            0 <= j < grammar_matches.len() ==> encodes_grammar_match(
                #[trigger] grammar_matches[j],
                sentence.grammar_matches@[j],
            ),
    ensures
        sentence_decode_error(record, tokens, grammar_matches) is None,
        parsed_uuid(record.id@) == Some(sentence.id@),
        decoded_tokens(tokens) == Ok::<Seq<Token>, DecodeError>(sentence.tokens@),
        decoded_grammar_matches(grammar_matches) == Ok::<Seq<GrammarMatch>, DecodeError>(
            sentence.grammar_matches@,
        ),
{
    lemma_tokens_round_trip(tokens, sentence.tokens@);
    lemma_matches_round_trip(grammar_matches, sentence.grammar_matches@);
}

proof fn lemma_tokens_round_trip(records: Seq<TokenRecord>, tokens: Seq<Token>)
    requires
        records.len() == tokens.len(),
        forall|j: int| 0 <= j < records.len() ==> encodes_token(#[trigger] records[j], tokens[j], j),
    ensures
        decoded_tokens(records) == Ok::<Seq<Token>, DecodeError>(tokens),
    decreases records.len(),
{
    if records.len() > 0 {
        let n = records.len() - 1;
        assert forall|j: int| 0 <= j < n implies encodes_token(
            #[trigger] records.drop_last()[j],
            tokens.drop_last()[j],
            j,
        ) by {
            assert(encodes_token(records[j], tokens[j], j));
        }
        lemma_tokens_round_trip(records.drop_last(), tokens.drop_last());
        let token = tokens[n];
        assert(encodes_token(records[n], token, n));
        lemma_offset_round_trip(token.start);
        lemma_offset_round_trip(token.end);
        assert(EntityId(token.id@) == token.id);
        if let Some(vocabulary_id) = token.vocabulary_id {
            assert(EntityId(vocabulary_id@) == vocabulary_id);
        }
        assert(decoded_token(records.last()) == Ok::<Token, DecodeError>(token));
        assert(tokens.drop_last().push(token) =~= tokens);
    } else {
        assert(tokens =~= Seq::<Token>::empty());
    }
}

proof fn lemma_matches_round_trip(records: Seq<GrammarMatchRecord>, matches: Seq<GrammarMatch>)
    requires
        records.len() == matches.len(),
        forall|j: int| 0 <= j < records.len() ==> encodes_grammar_match(#[trigger] records[j], matches[j]),
    ensures
        decoded_grammar_matches(records) == Ok::<Seq<GrammarMatch>, DecodeError>(matches),
    decreases records.len(),
{
    if records.len() > 0 {
        let n = records.len() - 1;
        assert forall|j: int| 0 <= j < n implies encodes_grammar_match(
            #[trigger] records.drop_last()[j],
            matches.drop_last()[j],
        ) by {
            assert(encodes_grammar_match(records[j], matches[j]));
        }
        lemma_matches_round_trip(records.drop_last(), matches.drop_last());
        let grammar_match = matches[n];
        assert(encodes_grammar_match(records[n], grammar_match));
        lemma_offset_round_trip(grammar_match.start);
        lemma_offset_round_trip(grammar_match.end);
        assert(EntityId(grammar_match.id@) == grammar_match.id);
        assert(EntityId(grammar_match.grammar_id@) == grammar_match.grammar_id);
        assert(decoded_grammar_match(records.last()) == Ok::<GrammarMatch, DecodeError>(grammar_match));
        assert(matches.drop_last().push(grammar_match) =~= matches);
    } else {
        assert(matches =~= Seq::<GrammarMatch>::empty());
    }
}

} // verus!
