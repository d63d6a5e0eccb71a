//! The vocabulary of multi-step operations: what the library asks the
//! system to do next (`Action`) and what the system answers (`Event`).
use vstd::prelude::*;

use crate::command::CommandLine;
use crate::error::AmectError;
use crate::registry::{Hive, RegistryEdit};

verus! {

/// An entry of a directory listing: its path, as text, and whether it is a directory.
#[derive(Clone, Debug, PartialEq, Eq)]
pub struct DirEntry {
    pub path: String,
    pub is_dir: bool,
}

/// One thing for the system to do.
#[derive(Debug, PartialEq, Eq)]
pub enum Action {
    /// Change the registry; answered by `Done` or `Failed`.
    Edit(RegistryEdit),
    /// Run a command and collect what it prints; answered by `Output` or `Failed`.
    Capture(CommandLine),
    /// Run a command with its output discarded; answered by `Exited` or `Failed`.
    Run(CommandLine),
    /// Copy the image file the user chose to `to`; answered by `Done` or `Failed`.
    CopySourceImage { to: String },
    /// Create a directory and its parents; answered by `Done` or `Failed`.
    CreateDirAll { path: String },
    /// List a directory; answered by `Listing` or `Failed`.
    ListDir { path: String },
    /// Remove a directory with its contents; answered by `Done` or `Failed`.
    RemoveDirAll { path: String },
    /// Remove a file; answered by `Done` or `Failed`.
    RemoveFile { path: String },
    /// Read the image file the user chose; answered by `Contents` or `Failed`.
    ReadSourceImage,
    /// Write `bytes` to the file `path`, replacing what it held; answered
    /// by `Done` or `Failed`.
    WriteFile { path: String, bytes: Vec<u8> },
    /// The operation is over, with this result.
    Finish(Result<(), AmectError>),
}

/// The system's answer to an action.
#[derive(Clone, Debug, PartialEq, Eq)]
pub enum Event {
    /// The action was carried out.
    Done,
    /// The action failed; the description of the failure.
    Failed(String),
    /// The action failed because what it names does not exist; the
    /// description of the failure.
    Missing(String),
    /// The command ran and exited; whether it succeeded, and its exit status as text.
    Exited { success: bool, status: String },
    /// The command ran and printed these bytes.
    Output(Vec<u8>),
    /// The directory holds these entries.
    Listing(Vec<DirEntry>),
    /// The file holds these bytes.
    Contents(Vec<u8>),
}

/// What kind of answer a step waits for.
#[derive(Clone, Copy, Debug, PartialEq, Eq)]
pub enum Awaiting {
    Completion,
    Exit,
    Output,
    Listing,
    Contents,
    Nothing,
}

/// Whether `e` is an answer of the kind `w`; a failure answers anything but
/// `Nothing`, and a missing object answers what waits for completion.
pub open spec fn answers(w: Awaiting, e: Event) -> bool {
    match e {
        Event::Failed(_) => w != Awaiting::Nothing,
        Event::Done => w == Awaiting::Completion,
        Event::Missing(_) => w == Awaiting::Completion,
        Event::Exited { .. } => w == Awaiting::Exit,
        Event::Output(_) => w == Awaiting::Output,
        Event::Listing(_) => w == Awaiting::Listing,
        Event::Contents(_) => w == Awaiting::Contents,
    }
}

/// Whether `e` is an answer of the kind `w`.
pub fn is_answer(w: Awaiting, e: &Event) -> (r: bool)
    ensures
        r == answers(w, *e),
{
    match e {
        Event::Failed(_) => !matches!(w, Awaiting::Nothing),
        Event::Done => matches!(w, Awaiting::Completion),
        Event::Missing(_) => matches!(w, Awaiting::Completion),
        Event::Exited { .. } => matches!(w, Awaiting::Exit),
        Event::Output(_) => matches!(w, Awaiting::Output),
        Event::Listing(_) => matches!(w, Awaiting::Listing),
        Event::Contents(_) => matches!(w, Awaiting::Contents),
    }
}

/// The texts of a listing: each entry's path and whether it is a directory.
pub open spec fn listing_view(es: Seq<DirEntry>) -> Seq<(Seq<char>, bool)> {
    es.map_values(|e: DirEntry| (e.path@, e.is_dir))
}

impl Action {
    /// Sets the `REG_DWORD` `name` of `key` to `value`.
    pub open spec fn sets_dword(self, hive: Hive, key: Seq<char>, name: Seq<char>, value: u32) -> bool {
        self matches Action::Edit(RegistryEdit::SetDword { hive: h, key: k, name: n, value: v })
            && h == hive && k@ == key && n@ == name && v == value
    }

    /// Sets the `REG_SZ` `name` of `key` to `value`.
    pub open spec fn sets_string(self, hive: Hive, key: Seq<char>, name: Seq<char>, value: Seq<char>) -> bool {
        self matches Action::Edit(RegistryEdit::SetString { hive: h, key: k, name: n, value: v })
            && h == hive && k@ == key && n@ == name && v@ == value
    }

    /// Deletes `key` with its subkeys.
    pub open spec fn deletes_tree(self, hive: Hive, key: Seq<char>) -> bool {
        self matches Action::Edit(RegistryEdit::DeleteTree { hive: h, key: k }) && h == hive && k@
            == key
    }

    /// Runs the command `c`, output discarded.
    pub open spec fn runs(self, c: (Seq<char>, Seq<Seq<char>>)) -> bool {
        self matches Action::Run(x) && x@ == c
    }

    /// Runs the command `c` and collects its output.
    pub open spec fn captures(self, c: (Seq<char>, Seq<Seq<char>>)) -> bool {
        self matches Action::Capture(x) && x@ == c
    }

    /// Copies the chosen image to `p`.
    pub open spec fn copies_image_to(self, p: Seq<char>) -> bool {
        self matches Action::CopySourceImage { to } && to@ == p
    }

    /// Creates the directory `p`.
    pub open spec fn creates_dir(self, p: Seq<char>) -> bool {
        self matches Action::CreateDirAll { path } && path@ == p
    }

    /// Lists the directory `p`.
    pub open spec fn lists(self, p: Seq<char>) -> bool {
        self matches Action::ListDir { path } && path@ == p
    }

    /// Removes the directory tree `p`.
    pub open spec fn removes_dir(self, p: Seq<char>) -> bool {
        self matches Action::RemoveDirAll { path } && path@ == p
    }

    /// Removes the file `p`.
    pub open spec fn removes_file(self, p: Seq<char>) -> bool {
        self matches Action::RemoveFile { path } && path@ == p
    }

    /// Writes the bytes `b` to the file `p`.
    pub open spec fn writes_file(self, p: Seq<char>, b: Seq<u8>) -> bool {
        self matches Action::WriteFile { path, bytes } && path@ == p && bytes@ == b
    }

    /// Ends the operation successfully.
    pub open spec fn finishes_ok(self) -> bool {
        self == Action::Finish(Ok(()))
    }

    /// Ends the operation with the error `e`.
    pub open spec fn finishes_with(self, e: AmectError) -> bool {
        self == Action::Finish(Err(e))
    }

    /// Ends the operation because a command printed something that is not
    /// UTF-8, described as `m`.
    pub open spec fn finishes_not_utf8(self, m: Seq<char>) -> bool {
        self matches Action::Finish(Err(AmectError::NotUtf8(t))) && t@ == m
    }

    /// Ends the operation with the failure that an event described as `m`.
    pub open spec fn finishes_with_failure(self, m: Seq<char>) -> bool {
        self matches Action::Finish(Err(AmectError::Io(s))) && s@ == m
    }
}

} // verus!
