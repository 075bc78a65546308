use crate::id::{is_random_uuid, EntityId};
use vstd::prelude::*;

verus! {

/// A single Japanese kanji character and its linguistic information.
#[derive(Debug, Clone, PartialEq, Eq)]
pub struct KanjiEntry {
    pub id: EntityId,
    pub character: char,
    pub on_readings: Vec<String>,
    pub kun_readings: Vec<String>,
    pub meanings: Vec<String>,
    pub stroke_count: Option<u16>,
    pub grade: Option<u8>,
    pub jlpt_level: Option<u8>,
}

impl KanjiEntry {
    /// An entry for `character` with a fresh random identity and no further information.
    pub fn new(character: char) -> (entry: Self)
        ensures
            is_random_uuid(entry.id@),
            entry.character == character,
            entry.on_readings@.len() == 0,
            entry.kun_readings@.len() == 0,
            entry.meanings@.len() == 0,
            entry.stroke_count is None,
            entry.grade is None,
            entry.jlpt_level is None,
    {
        Self {
            id: EntityId::new(),
            character,
            on_readings: Vec::new(),
            kun_readings: Vec::new(),
            meanings: Vec::new(),
            stroke_count: None,
            grade: None,
            jlpt_level: None,
        }
    }
}

} // verus!
