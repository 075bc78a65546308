use vstd::prelude::*;

verus! {

/// The sections of the workspace that the navigation offers.
#[derive(Debug, Clone, Copy, PartialEq, Eq, Structural)]
pub enum Section {
    Home,
    Vocabulary,
    Kanji,
    Grammar,
    References,
}

impl Section {
    /// The title shown for the section.
    pub fn title(self) -> (title: &'static str)
        ensures
            title@ == match self {
                Section::Home => "Home"@,
                Section::Vocabulary => "Vocabulary"@,
                Section::Kanji => "Kanji"@,
                Section::Grammar => "Grammar"@,
                Section::References => "References"@,
            },
    {
        match self {
            Self::Home => "Home",
            Self::Vocabulary => "Vocabulary",
            Self::Kanji => "Kanji",
            Self::Grammar => "Grammar",
            Self::References => "References",
        }
    }
}

impl Default for Section {
    /// The workspace opens on the home section.
    fn default() -> (section: Self)
        ensures
            section == Section::Home,
    {
        Section::Home
    }
}

} // verus!
