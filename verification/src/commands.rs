//! The command layer: the results owed to the two exposed commands for
//! each outcome the surrounding shell can observe at the filesystem.
//!
//! The shell performs the actual write, existence check and read, and
//! reports what it saw; every decision about what the caller receives is
//! made here.

use crate::errors::PersistError;
use crate::paths::resolve_state_path;
use crate::paths::state_path_of;
use vstd::prelude::*;

verus! {

/// What the shell observed when it looked for the state file and tried to
/// read it.
pub enum ReadOutcome {
    /// The file does not exist.
    Missing,
    /// The whole file, read as text.
    Contents(String),
    /// The file exists but could not be read; the reported reason.
    Failure(String),
}

/// What the shell observed when it tried to write the state file.
pub enum WriteOutcome {
    /// The blob was written in full.
    Written,
    /// The write failed; the reported reason.
    Failure(String),
}

/// The result owed to a load for each read outcome: a missing file is a
/// successful empty load, never an error; contents are returned verbatim;
/// a failed read of an existing file is an I/O error carrying the reason.
pub fn load_result(outcome: ReadOutcome) -> (result: Result<String, PersistError>)
    ensures
        outcome is Missing ==> (result matches Ok(value) && value@ == Seq::<char>::empty()),
        outcome matches ReadOutcome::Contents(text) ==> (result matches Ok(value) && value
            == text),
        outcome matches ReadOutcome::Failure(why) ==> result == Err::<String, _>(
            PersistError::Io(why),
        ),
{
    match outcome {
        ReadOutcome::Missing => Ok(String::new()),
        ReadOutcome::Contents(text) => Ok(text),
        ReadOutcome::Failure(why) => Err(PersistError::Io(why)),
    }
}

/// The result owed to a save for each write outcome: success exactly when
/// the blob was written in full, an I/O error carrying the reason otherwise.
pub fn save_result(outcome: WriteOutcome) -> (result: Result<(), PersistError>)
    ensures
        outcome is Written ==> result is Ok,
        outcome matches WriteOutcome::Failure(why) ==> result == Err::<(), _>(
            PersistError::Io(why),
        ),
{
    match outcome {
        WriteOutcome::Written => Ok(()),
        WriteOutcome::Failure(why) => Err(PersistError::Io(why)),
    }
}

/// The state path owed for each outcome of locating the running
/// executable: its containing directory with the state file name appended,
/// or an environment error carrying the reason when the executable's path
/// could not be determined — surfaced before any file is touched.
pub fn resolved_path(exe_path: Result<String, String>) -> (result: Result<String, PersistError>)
    ensures
        exe_path matches Ok(exe) ==> (result matches Ok(path) && path@ == state_path_of(exe@)),
        exe_path matches Err(why) ==> result == Err::<String, _>(PersistError::Environment(why)),
{
    match exe_path {
        Ok(exe) => Ok(resolve_state_path(exe.as_str())),
        Err(why) => Err(PersistError::Environment(why)),
    }
}

} // verus!
