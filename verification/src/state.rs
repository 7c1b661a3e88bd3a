//! The two closed sets of state values and their textual forms.

use vstd::prelude::*;

verus! {

/// The string that `str::to_lowercase` returns for a string of the given
/// characters.
pub uninterp spec fn lowercase(s: Seq<char>) -> Seq<char>;

/// Calls `str::to_lowercase`, std's locale-independent Unicode lowercasing.
/// Nothing is proved here: the result is only given the name `lowercase`.
#[verifier::external_body]
pub(crate) fn to_lowercase(s: &str) -> (lowered: String)
    ensures
        lowered@ == lowercase(s@),
{
    s.to_lowercase()
}

/// Which of a unit's two state dimensions a value or a stream belongs to.
#[derive(Clone, Copy, Debug, PartialEq, Eq, Structural)]
pub enum StreamKind {
    ActiveState,
    LoadState,
}

/// Operational status of a unit.
#[derive(Clone, Copy, Debug, PartialEq, Eq, Structural)]
pub enum ActiveState {
    Active,
    Reloading,
    Inactive,
    Failed,
    Activating,
    Deactivating,
}

/// Whether a unit's definition is loaded.
#[derive(Clone, Copy, Debug, PartialEq, Eq, Structural)]
pub enum LoadState {
    Loaded,
    Error,
    Masked,
}

/// A raw value that names no member of the enumeration it was held against.
#[derive(Clone, Copy, Debug, PartialEq, Eq, Structural)]
pub enum ParseError {
    UnknownActiveState,
    UnknownLoadState,
}

impl ActiveState {
    /// The text a value is shown as.
    pub open spec fn spec_name(self) -> Seq<char> {
        match self {
            ActiveState::Active => "Active"@,
            ActiveState::Reloading => "Reloading"@,
            ActiveState::Inactive => "Inactive"@,
            ActiveState::Failed => "Failed"@,
            ActiveState::Activating => "Activating"@,
            ActiveState::Deactivating => "Deactivating"@,
        }
    }

    /// The lowercase word a value is recognised by.
    pub open spec fn spec_keyword(self) -> Seq<char> {
        match self {
            ActiveState::Active => "active"@,
            ActiveState::Reloading => "reloading"@,
            ActiveState::Inactive => "inactive"@,
            ActiveState::Failed => "failed"@,
            ActiveState::Activating => "activating"@,
            ActiveState::Deactivating => "deactivating"@,
        }
    }

    /// The value whose keyword is exactly `word`, if there is one.
    pub open spec fn spec_from_keyword(word: Seq<char>) -> Option<ActiveState> {
        if word == "active"@ {
            Some(ActiveState::Active)
        } else if word == "reloading"@ {
            Some(ActiveState::Reloading)
        } else if word == "inactive"@ {
            Some(ActiveState::Inactive)
        } else if word == "failed"@ {
            Some(ActiveState::Failed)
        } else if word == "activating"@ {
            Some(ActiveState::Activating)
        } else if word == "deactivating"@ {
            Some(ActiveState::Deactivating)
        } else {
            None
        }
    }

    /// The value a raw string stands for: the one whose keyword the
    /// lowercased string equals.
    pub open spec fn spec_parse(raw: Seq<char>) -> Option<ActiveState> {
        Self::spec_from_keyword(lowercase(raw))
    }

    /// Looks an already lowercased word up among the keywords.
    pub fn from_keyword(word: &str) -> (found: Option<ActiveState>)
        ensures
            found == Self::spec_from_keyword(word@),
    {
        let word = word.to_owned();
        if word == "active".to_owned() {
            Some(ActiveState::Active)
        } else if word == "reloading".to_owned() {
            Some(ActiveState::Reloading)
        } else if word == "inactive".to_owned() {
            Some(ActiveState::Inactive)
        } else if word == "failed".to_owned() {
            Some(ActiveState::Failed)
        } else if word == "activating".to_owned() {
            Some(ActiveState::Activating)
        } else if word == "deactivating".to_owned() {
            Some(ActiveState::Deactivating)
        } else {
            None
        }
    }

    /// Reads a raw value without regard to case.
    pub fn parse(raw: &str) -> (parsed: Result<ActiveState, ParseError>)
        ensures
            match Self::spec_parse(raw@) {
                Some(state) => parsed == Ok::<ActiveState, ParseError>(state),
                None => parsed == Err::<ActiveState, ParseError>(ParseError::UnknownActiveState),
            },
    {
        let lowered = to_lowercase(raw);
        match Self::from_keyword(lowered.as_str()) {
            Some(state) => Ok(state),
            None => Err(ParseError::UnknownActiveState),
        }
    }

    /// The text a value is shown as.
    pub fn name(&self) -> (text: &'static str)
        ensures
            text@ == self.spec_name(),
    {
        match self {
            ActiveState::Active => "Active",
            ActiveState::Reloading => "Reloading",
            ActiveState::Inactive => "Inactive",
            ActiveState::Failed => "Failed",
            ActiveState::Activating => "Activating",
            ActiveState::Deactivating => "Deactivating",
        }
    }
}

impl LoadState {
    /// The text a value is shown as.
    pub open spec fn spec_name(self) -> Seq<char> {
        match self {
            LoadState::Loaded => "Loaded"@,
            LoadState::Error => "Error"@,
            LoadState::Masked => "Masked"@,
        }
    }

    /// The lowercase word a value is recognised by.
    pub open spec fn spec_keyword(self) -> Seq<char> {
        match self {
            LoadState::Loaded => "loaded"@,
            LoadState::Error => "error"@,
            LoadState::Masked => "masked"@,
        }
    }

    /// The value whose keyword is exactly `word`, if there is one.
    pub open spec fn spec_from_keyword(word: Seq<char>) -> Option<LoadState> {
        if word == "loaded"@ {
            Some(LoadState::Loaded)
        } else if word == "error"@ {
            Some(LoadState::Error)
        } else if word == "masked"@ {
            Some(LoadState::Masked)
        } else {
            None
        }
    }

    /// The value a raw string stands for: the one whose keyword the
    /// lowercased string equals.
    pub open spec fn spec_parse(raw: Seq<char>) -> Option<LoadState> {
        Self::spec_from_keyword(lowercase(raw))
    }

    /// Looks an already lowercased word up among the keywords.
    pub fn from_keyword(word: &str) -> (found: Option<LoadState>)
        ensures
            found == Self::spec_from_keyword(word@),
    {
        let word = word.to_owned();
        if word == "loaded".to_owned() {
            Some(LoadState::Loaded)
        } else if word == "error".to_owned() {
            Some(LoadState::Error)
        } else if word == "masked".to_owned() {
            Some(LoadState::Masked)
        } else {
            None
        }
    }

    /// Reads a raw value without regard to case.
    pub fn parse(raw: &str) -> (parsed: Result<LoadState, ParseError>)
        ensures
            match Self::spec_parse(raw@) {
                Some(state) => parsed == Ok::<LoadState, ParseError>(state),
                None => parsed == Err::<LoadState, ParseError>(ParseError::UnknownLoadState),
            },
    {
        let lowered = to_lowercase(raw);
        match Self::from_keyword(lowered.as_str()) {
            Some(state) => Ok(state),
            None => Err(ParseError::UnknownLoadState),
        }
    }

    /// The text a value is shown as.
    pub fn name(&self) -> (text: &'static str)
        ensures
            text@ == self.spec_name(),
    {
        match self {
            LoadState::Loaded => "Loaded",
            LoadState::Error => "Error",
            LoadState::Masked => "Masked",
        }
    }
}

/// No two active states share a keyword: a word is found as a state exactly
/// when it is that state's keyword.
pub proof fn lemma_active_keywords_distinct(word: Seq<char>, state: ActiveState)
    ensures
        ActiveState::spec_from_keyword(word) == Some(state) <==> word == state.spec_keyword(),
{
    reveal_strlit("active");
    reveal_strlit("reloading");
    reveal_strlit("inactive");
    reveal_strlit("failed");
    reveal_strlit("activating");
    reveal_strlit("deactivating");
    assert("active"@.len() == 6 && "active"@[0] == 'a');
    assert("reloading"@.len() == 9);
    assert("inactive"@.len() == 8);
    assert("failed"@.len() == 6 && "failed"@[0] == 'f');
    assert("activating"@.len() == 10);
    assert("deactivating"@.len() == 12);
}

/// No two load states share a keyword: a word is found as a state exactly
/// when it is that state's keyword.
pub proof fn lemma_load_keywords_distinct(word: Seq<char>, state: LoadState)
    ensures
        LoadState::spec_from_keyword(word) == Some(state) <==> word == state.spec_keyword(),
{
    reveal_strlit("loaded");
    reveal_strlit("error");
    reveal_strlit("masked");
    assert("loaded"@.len() == 6 && "loaded"@[0] == 'l');
    assert("error"@.len() == 5);
    assert("masked"@.len() == 6 && "masked"@[0] == 'm');
}

} // verus!
