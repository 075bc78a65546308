use crate::id::{is_random_uuid, EntityId};
use vstd::prelude::*;

verus! {

/// A Japanese grammar pattern.
#[derive(Debug, Clone, PartialEq, Eq)]
pub struct GrammarPattern {
    pub id: EntityId,
    pub name: String,
    pub formation: String,
    pub meanings: Vec<String>,
    pub usage: String,
    pub source: Option<String>,
}

impl GrammarPattern {
    /// A pattern called `name` with a fresh random identity and no further information.
    pub fn new(name: &str) -> (pattern: Self)
        ensures
            is_random_uuid(pattern.id@),
            pattern.name@ == name@,
            pattern.formation@.len() == 0,
            pattern.meanings@.len() == 0,
            pattern.usage@.len() == 0,
            pattern.source is None,
    {
        Self {
            id: EntityId::new(),
            name: name.to_owned(),
            formation: String::new(),
            meanings: Vec::new(),
            usage: String::new(),
            source: None,
        }
    }
}

} // verus!
