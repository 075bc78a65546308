use kotobase::decode_error::DecodeError;
use kotobase::grammar_record::{grammar_from_record, grammar_to_record, GrammarRecord};
use kotobase::kanji_record::{kanji_from_record, kanji_to_record, KanjiRecord};
use kotobase::positions::positioned_texts;
use kotobase::reference_record::{
    entity_type_from_string, entity_type_to_string, reference_from_row, reference_to_record,
    ReferenceRecord,
};
use kotobase::relationship_record::{
    relationship_kind_from_string, relationship_kind_to_string, relationship_to_record,
    row_to_relationship, RelationshipRecord,
};
use kotobase::sentence_record::{
    grammar_match_records, sentence_from_records, sentence_to_record, token_records,
    GrammarMatchRecord, TokenRecord,
};
use kotobase::text::{entity_id_text, parse_entity_id, text_equals};
use kotobase::{
    EntityId, EntityType, GrammarMatch, GrammarPattern, KanjiEntry, Reference, ReferenceLocation,
    Relationship, RelationshipKind, RelationshipMetadata, Section, Sentence, Token,
};

const SAMPLE_BITS: u128 = 0xa1a2a3a4b1b2c1c2d1d2d3d4d5d6d7d8;
const SAMPLE_TEXT: &str = "a1a2a3a4-b1b2-c1c2-d1d2-d3d4d5d6d7d8";

fn round_trip_reference(location: ReferenceLocation) {
    let reference = Reference::new(
        EntityId::new(),
        EntityType::Sentence,
        EntityId::new(),
        EntityType::Vocabulary,
        location,
    );
    let record = reference_to_record(&reference);
    assert_eq!(reference_from_row(record), Ok(reference));
}

fn sample_reference_record() -> ReferenceRecord {
    ReferenceRecord {
        id: SAMPLE_TEXT.to_string(),
        source_id: SAMPLE_TEXT.to_string(),
        source_type: "note".to_string(),
        target_id: SAMPLE_TEXT.to_string(),
        target_type: "kanji".to_string(),
        location_type: "character_range".to_string(),
        start_offset: Some(1),
        end_offset: Some(2),
        page: None,
        block_id: None,
    }
}

#[test]
fn entity_id_text_is_hyphenated_lowercase() {
    let id = EntityId::from_uuid(SAMPLE_BITS);
    assert_eq!(entity_id_text(id), SAMPLE_TEXT);
    assert_eq!(entity_id_text(EntityId::from_uuid(0)), "00000000-0000-0000-0000-000000000000");
}

#[test]
fn parse_entity_id_reads_uuid_text() {
    assert_eq!(parse_entity_id(SAMPLE_TEXT), Some(EntityId::from_uuid(SAMPLE_BITS)));
    assert_eq!(
        parse_entity_id("A1A2A3A4B1B2C1C2D1D2D3D4D5D6D7D8"),
        Some(EntityId::from_uuid(SAMPLE_BITS))
    );
    assert_eq!(parse_entity_id("not a uuid"), None);
    assert_eq!(parse_entity_id(""), None);
    let id = EntityId::new();
    assert_eq!(parse_entity_id(&entity_id_text(id)), Some(id));
}

#[test]
fn kanji_record_holds_the_character_as_text() {
    let record = kanji_to_record(&KanjiEntry::new('学'));
    assert_eq!(record.character, "学");
    let record = kanji_to_record(&KanjiEntry::new('𠮷'));
    assert_eq!(record.character, "𠮷");
}

#[test]
fn text_equals_compares_characters() {
    assert!(text_equals("学校", "学校"));
    assert!(!text_equals("学校", "学"));
    assert!(!text_equals("page", "pagE"));
    assert!(text_equals("", ""));
}

#[test]
fn section_titles() {
    assert_eq!(Section::Home.title(), "Home");
    assert_eq!(Section::Vocabulary.title(), "Vocabulary");
    assert_eq!(Section::Kanji.title(), "Kanji");
    assert_eq!(Section::Grammar.title(), "Grammar");
    assert_eq!(Section::References.title(), "References");
    assert_eq!(Section::default(), Section::Home);
}

#[test]
fn entity_type_names_round_trip() {
    let types = [
        (EntityType::Vocabulary, "vocabulary"),
        (EntityType::Kanji, "kanji"),
        (EntityType::Grammar, "grammar"),
        (EntityType::Sentence, "sentence"),
        (EntityType::Note, "note"),
        (EntityType::Page, "page"),
        (EntityType::File, "file"),
        (EntityType::Tag, "tag"),
        (EntityType::Meaning, "meaning"),
        (EntityType::Proverb, "proverb"),
        (EntityType::StudySession, "study_session"),
    ];
    for (entity_type, name) in types {
        assert_eq!(entity_type_to_string(entity_type), name);
        assert_eq!(entity_type_from_string(name.to_string()), Ok(entity_type));
    }
    assert_eq!(
        entity_type_from_string("Vocabulary".to_string()),
        Err(DecodeError::UnknownEntityType)
    );
}

#[test]
fn relationship_kind_names_round_trip() {
    let kinds = [
        (RelationshipKind::About, "about"),
        (RelationshipKind::Contains, "contains"),
        (RelationshipKind::References, "references"),
        (RelationshipKind::Uses, "uses"),
        (RelationshipKind::ExampleOf, "example_of"),
        (RelationshipKind::Explains, "explains"),
        (RelationshipKind::Translates, "translates"),
        (RelationshipKind::DerivedFrom, "derived_from"),
        (RelationshipKind::RelatedTo, "related_to"),
    ];
    for (kind, name) in kinds {
        assert_eq!(relationship_kind_to_string(kind), name);
        assert_eq!(relationship_kind_from_string(name), Ok(kind));
    }
    assert_eq!(relationship_kind_from_string("relates"), Err(DecodeError::UnknownRelationshipKind));
}

#[test]
fn reference_record_round_trips_every_location() {
    round_trip_reference(ReferenceLocation::CharacterRange { start: 4, end: 9 });
    round_trip_reference(ReferenceLocation::TokenRange { start: 2, end: 5 });
    round_trip_reference(ReferenceLocation::Page { page: 17 });
    round_trip_reference(ReferenceLocation::Block { block_id: EntityId::new() });
    round_trip_reference(ReferenceLocation::FileLocation {
        page: Some(3),
        start: Some(120),
        end: Some(145),
    });
    round_trip_reference(ReferenceLocation::FileLocation { page: None, start: None, end: None });
    round_trip_reference(ReferenceLocation::CharacterRange { start: usize::MAX, end: 0 });
}

#[test]
fn reference_record_columns() {
    let reference = Reference {
        id: EntityId::from_uuid(SAMPLE_BITS),
        source: EntityId::from_uuid(1),
        source_type: EntityType::StudySession,
        target: EntityId::from_uuid(2),
        target_type: EntityType::Tag,
        location: ReferenceLocation::FileLocation { page: Some(7), start: None, end: Some(9) },
    };
    let record = reference_to_record(&reference);
    assert_eq!(record.id, SAMPLE_TEXT);
    assert_eq!(record.source_id, "00000000-0000-0000-0000-000000000001");
    assert_eq!(record.source_type, "study_session");
    assert_eq!(record.target_type, "tag");
    assert_eq!(record.location_type, "file_location");
    assert_eq!(record.start_offset, None);
    assert_eq!(record.end_offset, Some(9));
    assert_eq!(record.page, Some(7));
    assert_eq!(record.block_id, None);

    let block = EntityId::from_uuid(SAMPLE_BITS);
    let record = reference_to_record(&Reference { location: ReferenceLocation::Block { block_id: block }, ..reference });
    assert_eq!(record.location_type, "block");
    assert_eq!(record.block_id.as_deref(), Some(SAMPLE_TEXT));
    assert_eq!(record.page, None);
}

#[test]
fn reference_record_errors() {
    let valid = sample_reference_record();
    assert!(reference_from_row(valid.clone()).is_ok());

    let mut record = valid.clone();
    record.source_id = "x".to_string();
    assert_eq!(reference_from_row(record), Err(DecodeError::InvalidEntityId));

    let mut record = valid.clone();
    record.target_type = "word".to_string();
    assert_eq!(reference_from_row(record), Err(DecodeError::UnknownEntityType));

    let mut record = valid.clone();
    record.start_offset = None;
    record.end_offset = None;
    assert_eq!(reference_from_row(record), Err(DecodeError::MissingStartOffset));

    let mut record = valid.clone();
    record.location_type = "token_range".to_string();
    record.end_offset = None;
    assert_eq!(reference_from_row(record), Err(DecodeError::MissingEndOffset));

    let mut record = valid.clone();
    record.location_type = "page".to_string();
    assert_eq!(reference_from_row(record), Err(DecodeError::MissingPage));

    let mut record = valid.clone();
    record.location_type = "block".to_string();
    assert_eq!(reference_from_row(record), Err(DecodeError::MissingBlockId));

    let mut record = valid.clone();
    record.location_type = "block".to_string();
    record.block_id = Some("nope".to_string());
    assert_eq!(reference_from_row(record), Err(DecodeError::InvalidEntityId));

    let mut record = valid.clone();
    record.location_type = "chapter".to_string();
    assert_eq!(reference_from_row(record), Err(DecodeError::UnknownLocationType));

    let mut record = valid;
    record.id = String::new();
    record.source_type = "unknown".to_string();
    assert_eq!(reference_from_row(record), Err(DecodeError::InvalidEntityId));
}

#[test]
fn stored_offsets_are_read_as_usize() {
    let mut record = sample_reference_record();
    record.location_type = "file_location".to_string();
    record.page = Some(5);
    record.start_offset = None;
    record.end_offset = Some(-1);
    let reference = reference_from_row(record).expect("valid record");
    assert_eq!(
        reference.location,
        ReferenceLocation::FileLocation { page: Some(5), start: None, end: Some(usize::MAX) }
    );
}

#[test]
fn relationship_record_round_trip() {
    let mut metadata = RelationshipMetadata::new();
    metadata.label = Some("grammar explanation".to_string());
    metadata.context = Some("Used in this sentence".to_string());
    let relationship = Relationship::with_metadata(
        EntityId::new(),
        EntityId::new(),
        RelationshipKind::Explains,
        metadata,
    );
    let record = relationship_to_record(&relationship);
    assert_eq!(record.kind, "explains");
    assert_eq!(row_to_relationship(record), Ok(relationship));

    let plain = Relationship::new(EntityId::new(), EntityId::new(), RelationshipKind::About);
    assert_eq!(row_to_relationship(relationship_to_record(&plain)), Ok(plain));
}

#[test]
fn relationship_record_errors() {
    let record = RelationshipRecord {
        source_id: SAMPLE_TEXT.to_string(),
        target_id: "bad".to_string(),
        kind: "about".to_string(),
        label: None,
        context: None,
    };
    assert_eq!(row_to_relationship(record.clone()), Err(DecodeError::InvalidRelationshipEntityId));
    let record = RelationshipRecord { target_id: SAMPLE_TEXT.to_string(), kind: "is".to_string(), ..record };
    assert_eq!(row_to_relationship(record), Err(DecodeError::UnknownRelationshipKind));
}

fn complete_kanji() -> KanjiEntry {
    let mut kanji = KanjiEntry::new('学');
    kanji.on_readings = vec!["ガク".to_string(), "ガッ".to_string()];
    kanji.kun_readings = vec!["まな.ぶ".to_string(), "まな.び".to_string()];
    kanji.meanings = vec!["study".to_string(), "learning".to_string()];
    kanji.stroke_count = Some(8);
    kanji.grade = Some(1);
    kanji.jlpt_level = Some(5);
    kanji
}

#[test]
fn kanji_record_round_trip() {
    let kanji = complete_kanji();
    let record = kanji_to_record(&kanji);
    assert_eq!(record.character, "学");
    assert_eq!(record.stroke_count, Some(8));
    let loaded = kanji_from_record(
        &record,
        kanji.on_readings.clone(),
        kanji.kun_readings.clone(),
        kanji.meanings.clone(),
    );
    assert_eq!(loaded, Ok(kanji));

    let plain = KanjiEntry::new('𠮷');
    let record = kanji_to_record(&plain);
    assert_eq!(record.grade, None);
    assert_eq!(kanji_from_record(&record, vec![], vec![], vec![]), Ok(plain));
}

#[test]
fn kanji_record_errors() {
    let record = KanjiRecord {
        id: "bad".to_string(),
        character: String::new(),
        stroke_count: None,
        grade: None,
        jlpt_level: None,
    };
    assert_eq!(kanji_from_record(&record, vec![], vec![], vec![]), Err(DecodeError::EmptyKanjiCharacter));
    let record = KanjiRecord { character: "学校".to_string(), ..record };
    assert_eq!(
        kanji_from_record(&record, vec![], vec![], vec![]),
        Err(DecodeError::MultipleKanjiCharacters)
    );
    let record = KanjiRecord { character: "学".to_string(), ..record };
    assert_eq!(kanji_from_record(&record, vec![], vec![], vec![]), Err(DecodeError::InvalidKanjiId));
    let record = KanjiRecord { id: SAMPLE_TEXT.to_string(), stroke_count: Some(70000), ..record };
    let kanji = kanji_from_record(&record, vec![], vec![], vec![]).expect("valid record");
    assert_eq!(kanji.id, EntityId::from_uuid(SAMPLE_BITS));
    assert_eq!(kanji.stroke_count, Some(70000u32 as u16));
}

#[test]
fn positioned_texts_number_items_in_order() {
    let values = vec!["ニチ".to_string(), "ジツ".to_string(), "ニ".to_string()];
    let rows = positioned_texts(&values);
    assert_eq!(rows.len(), 3);
    for (index, row) in rows.iter().enumerate() {
        assert_eq!(row.position, index as i64);
        assert_eq!(row.text, values[index]);
    }
    assert!(positioned_texts(&Vec::new()).is_empty());
}

#[test]
fn grammar_record_round_trip() {
    let mut grammar = GrammarPattern::new("〜ている");
    grammar.formation = "て-form + いる".to_string();
    grammar.meanings = vec!["to be doing".to_string(), "ongoing state".to_string()];
    grammar.usage = "Used to express an ongoing action or resulting state.".to_string();
    grammar.source = Some("Test Source".to_string());

    let record = grammar_to_record(&grammar);
    assert_eq!(record.name, "〜ている");
    assert_eq!(grammar_from_record(record, grammar.meanings.clone()), Ok(grammar));

    let record = GrammarRecord {
        id: "bad".to_string(),
        name: String::new(),
        formation: String::new(),
        usage: String::new(),
        source: None,
    };
    assert_eq!(grammar_from_record(record, vec![]), Err(DecodeError::InvalidGrammarId));
}

#[test]
fn sentence_records_round_trip() {
    let mut sentence = Sentence::new("日本語を勉強しています。");
    sentence.translation = Some("I am studying Japanese.".to_string());
    let mut token = Token::new("勉強", 3, 5);
    token.vocabulary_id = Some(EntityId::new());
    token.reading = Some("べんきょう".to_string());
    sentence.tokens.push(token);
    sentence.tokens.push(Token::new("日本語", 0, 3));
    sentence.grammar_matches.push(GrammarMatch::new(EntityId::new(), 7, 11));

    let record = sentence_to_record(&sentence);
    let tokens = token_records(&sentence);
    let matches = grammar_match_records(&sentence);
    assert_eq!(tokens.len(), 2);
    assert_eq!(tokens[1].position, 1);
    assert_eq!(matches[0].start_offset, 7);
    assert_eq!(sentence_from_records(record, &tokens, &matches), Ok(sentence));
}

#[test]
fn sentence_records_report_the_first_error() {
    let sentence = Sentence::new("文");
    let record = sentence_to_record(&sentence);
    let bad_token = TokenRecord {
        id: SAMPLE_TEXT.to_string(),
        position: 0,
        surface: "文".to_string(),
        start_offset: 0,
        end_offset: 1,
        reading: None,
        lemma: None,
        part_of_speech: None,
        vocabulary_id: Some("bad".to_string()),
    };
    let bad_match = GrammarMatchRecord {
        id: SAMPLE_TEXT.to_string(),
        grammar_id: "bad".to_string(),
        start_offset: 0,
        end_offset: 1,
    };
    assert_eq!(
        sentence_from_records(record.clone(), &vec![bad_token.clone()], &vec![]),
        Err(DecodeError::InvalidSentenceEntityId)
    );
    assert_eq!(
        sentence_from_records(record.clone(), &vec![], &vec![bad_match]),
        Err(DecodeError::InvalidSentenceEntityId)
    );
    let mut broken = record;
    broken.id = "bad".to_string();
    assert_eq!(
        sentence_from_records(broken, &vec![], &vec![]),
        Err(DecodeError::InvalidSentenceEntityId)
    );
    let good_token = TokenRecord { vocabulary_id: None, ..bad_token };
    let loaded = sentence_from_records(sentence_to_record(&sentence), &vec![good_token], &vec![])
        .expect("valid records");
    assert_eq!(loaded.tokens.len(), 1);
    assert_eq!(loaded.tokens[0].id, EntityId::from_uuid(SAMPLE_BITS));
}

#[test]
fn decode_error_messages() {
    assert_eq!(DecodeError::EmptyKanjiCharacter.message(), "kanji character is empty");
    assert_eq!(
        DecodeError::MultipleKanjiCharacters.message(),
        "kanji character contains more than one character"
    );
    assert_eq!(DecodeError::InvalidKanjiId.message(), "invalid kanji ID");
    assert_eq!(DecodeError::InvalidGrammarId.message(), "invalid grammar ID");
    assert_eq!(DecodeError::InvalidSentenceEntityId.message(), "invalid sentence entity ID");
    assert_eq!(
        DecodeError::InvalidRelationshipEntityId.message(),
        "invalid relationship entity ID"
    );
    assert_eq!(DecodeError::UnknownRelationshipKind.message(), "unknown relationship kind");
    assert_eq!(DecodeError::InvalidEntityId.message(), "invalid entity ID");
    assert_eq!(DecodeError::UnknownEntityType.message(), "unknown entity type");
    assert_eq!(DecodeError::MissingStartOffset.message(), "missing start offset");
    assert_eq!(DecodeError::MissingEndOffset.message(), "missing end offset");
    assert_eq!(DecodeError::MissingPage.message(), "missing page");
    assert_eq!(DecodeError::MissingBlockId.message(), "missing block ID");
    assert_eq!(DecodeError::UnknownLocationType.message(), "unknown reference location type");
}
