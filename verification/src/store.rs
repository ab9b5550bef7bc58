//! The state store: the single on-disk state file, modelled by its
//! contents, with whole-file save and load.
//!
//! At most one state blob exists at any time: a save replaces the file
//! wholesale, never merging or appending, and a load returns the whole
//! file verbatim, or the empty string while the file does not yet exist.

use vstd::prelude::*;

verus! {

/// The single state file, modelled by its contents: `None` while the file
/// does not exist, `Some(text)` once it does. The file does not exist
/// until the first successful save, and nothing deletes it except external
/// removal.
pub struct StateFile {
    contents: Option<String>,
}

/// The file after a save: exactly the saved blob, whatever was there before.
pub open spec fn save_transition(file: Option<Seq<char>>, blob: Seq<char>) -> Option<Seq<char>> {
    Some(blob)
}

/// The file after a load: a load never creates nor changes the file.
pub open spec fn load_transition(file: Option<Seq<char>>) -> Option<Seq<char>> {
    file
}

/// What a load returns: the whole file verbatim, or the empty string when
/// the file is absent (a normal first-run condition, not an error).
pub open spec fn loaded_value(file: Option<Seq<char>>) -> Seq<char> {
    match file {
        Some(text) => text,
        None => Seq::<char>::empty(),
    }
}

impl View for StateFile {
    type V = Option<Seq<char>>;

    closed spec fn view(&self) -> Option<Seq<char>> {
        match self.contents {
            Some(text) => Some(text@),
            None => None,
        }
    }
}

impl StateFile {
    /// A state file that does not exist yet: the first-run condition.
    pub fn absent() -> (file: Self)
        ensures
            file@ is None,
    {
        StateFile { contents: None }
    }

    /// Whether the file currently exists.
    pub fn is_present(&self) -> (present: bool)
        ensures
            present == (self@ is Some),
    {
        self.contents.is_some()
    }

    /// Save: write the blob as the file's entire new contents, creating
    /// the file if absent and overwriting it wholesale if present.
    pub fn save(&mut self, blob: String)
        ensures
            final(self)@ == save_transition(old(self)@, blob@),
    {
        self.contents = Some(blob);
    }

    /// Load: the whole file verbatim, or the empty string when the file
    /// does not exist. A shared borrow suffices: a load changes nothing.
    pub fn load(&self) -> (value: String)
        ensures
            value@ == loaded_value(self@),
    {
        match &self.contents {
            Some(text) => text.clone(),
            None => String::new(),
        }
    }

    /// External removal of the file, the only thing that ever deletes it.
    pub fn remove(&mut self)
        ensures
            final(self)@ is None,
    {
        self.contents = None;
    }
}

/// Round-trip: a load right after saving `blob`, over any prior state,
/// returns exactly `blob` — the empty string and strings with embedded
/// null or control characters included.
pub proof fn lemma_round_trip(file: Option<Seq<char>>, blob: Seq<char>)
    ensures
        loaded_value(save_transition(file, blob)) == blob,
{
}

/// First-run default: while no file exists, a load returns the empty
/// string, and no error.
pub proof fn lemma_first_run_default(file: Option<Seq<char>>)
    requires
        file is None,
    ensures
        loaded_value(file) == Seq::<char>::empty(),
{
}

/// Overwrite: saving `first` and then `second` leaves exactly `second`;
/// a load never returns `first`, nor any combination of the two.
pub proof fn lemma_overwrite(file: Option<Seq<char>>, first: Seq<char>, second: Seq<char>)
    ensures
        loaded_value(save_transition(save_transition(file, first), second)) == second,
{
}

/// Idempotent load: a load leaves the file exactly as it was, so two loads
/// in succession with no intervening save return the same value.
pub proof fn lemma_load_idempotent(file: Option<Seq<char>>)
    ensures
        load_transition(file) == file,
        loaded_value(load_transition(file)) == loaded_value(file),
{
}

} // verus!
