use vstd::prelude::*;

use crate::text::{chars_of, is_white_space, lemma_trim_shape, trim, trim_bounds};

verus! {

/// The name of the file that marks an output folder as safe to clear. Clearing
/// the folder never deletes it.
pub const BUILD_MARKER: &'static str = ".build-folder";

/// The name of the marker file, as characters.
pub open spec fn build_marker() -> Seq<char> {
    ".build-folder"@
}

/// Whether a directory entry is the marker that clearing the output folder
/// leaves in place.
pub fn is_build_marker(name: &str) -> (res: bool)
    ensures
        res == (name@ == build_marker()),
{
    let name = name.to_owned();
    let marker = String::from_str(BUILD_MARKER);
    name == marker
}

/// What a file-system step found out about an entry's type.
#[derive(PartialEq, Eq, Structural, Clone, Copy, Debug)]
pub enum EntryKind {
    File,
    Dir,
    Other,
}

/// What looking a path up found, in the order the lookup goes: the path is
/// canonicalized first, and only a path that resolves is probed further.
/// `probe` is what that further step gave (the entry's kind, or whether it
/// exists), or the text of the error it failed with.
pub enum PathStatus<T> {
    /// Canonicalizing failed because nothing is at the path.
    NotFound,
    /// Canonicalizing failed for another reason, given as text.
    Unresolvable(String),
    /// The path resolved to `canonical`, and probing it gave `probe`.
    Resolved { canonical: String, probe: Result<T, String> },
}

/// A failed file-system step, with the paths it concerned and, where the
/// system gave one, the reason.
pub enum FsError {
    /// Checking whether `path` exists failed.
    ExistsCheck { path: String, reason: String },
    /// `path` was expected to exist but does not.
    Missing { path: String },
    /// `path` could not be canonicalized.
    Unresolvable { path: String, reason: String },
    /// The metadata of `path` could not be read.
    Metadata { path: String, reason: String },
    /// An entry of the directory `path` could not be read.
    DirEntry { path: String, reason: String },
    /// The directory `path` could not be listed.
    ReadDir { path: String, reason: String },
    /// The directory `path` could not be deleted.
    DeleteDir { path: String, reason: String },
    /// The file `path` could not be deleted.
    DeleteFile { path: String, reason: String },
    /// The file `path` could not be read.
    ReadFile { path: String, reason: String },
    /// The file `path` could not be written.
    WriteFile { path: String, reason: String },
    /// The directory `path` could not be created.
    CreateDir { path: String, reason: String },
    /// The file `path` could not be created.
    CreateFile { path: String, reason: String },
    /// `from` could not be copied to `to`.
    Copy { from: String, to: String, reason: String },
    /// `path` was expected to be a file but is not.
    NotAFile { path: String },
    /// `path` was expected to be a directory but is not.
    NotADir { path: String },
    /// The post file `path` has no file name to derive a page name from.
    NoFileStem { path: String },
    /// The stem `name` of a post file is not valid Unicode.
    NotUnicode { name: String },
}

/// `prefix`, then `path`, then a colon and `reason`.
pub open spec fn failure_text(prefix: Seq<char>, path: Seq<char>, reason: Seq<char>) -> Seq<char> {
    prefix + path + ": "@ + reason
}

/// The message that reports a failed step.
pub open spec fn error_message(e: FsError) -> Seq<char> {
    match e {
        FsError::ExistsCheck { path, reason } =>
            "failed to check if "@ + path@ + " exists: "@ + reason@,
        FsError::Missing { path } => "expected "@ + path@ + " to exist, but it does not"@,
        FsError::Unresolvable { path, reason } =>
            failure_text("failed to evaluate path "@, path@, reason@),
        FsError::Metadata { path, reason } =>
            failure_text("failed to retrieve metadata for "@, path@, reason@),
        FsError::DirEntry { path, reason } =>
            failure_text("failed to access directory entry in "@, path@, reason@),
        FsError::ReadDir { path, reason } =>
            failure_text("failed to read directory "@, path@, reason@),
        FsError::DeleteDir { path, reason } =>
            failure_text("failed to delete directory "@, path@, reason@),
        FsError::DeleteFile { path, reason } =>
            failure_text("failed to delete file "@, path@, reason@),
        FsError::ReadFile { path, reason } => failure_text("failed to read file "@, path@, reason@),
        FsError::WriteFile { path, reason } =>
            failure_text("failed to write file "@, path@, reason@),
        FsError::CreateDir { path, reason } =>
            failure_text("failed to create directory "@, path@, reason@),
        FsError::CreateFile { path, reason } =>
            failure_text("failed to create file "@, path@, reason@),
        FsError::Copy { from, to, reason } =>
            failure_text("failed to move "@ + from@ + " to "@, to@, reason@),
        FsError::NotAFile { path } => "expected "@ + path@ + " to be a file, but it is not"@,
        FsError::NotADir { path } => "expected "@ + path@ + " to be a directory, but it is not"@,
        FsError::NoFileStem { path } => "failed to obtain file prefix for "@ + path@,
        FsError::NotUnicode { name } => "failed to convert "@ + name@ + " to unicode"@,
    }
}

/// Builds `prefix`, `path`, a colon and `reason`.
fn failure(prefix: &str, path: &String, reason: &String) -> (res: String)
    ensures
        res@ == failure_text(prefix@, path@, reason@),
{
    let mut res = String::from_str(prefix);
    res.append(path.as_str());
    res.append(": ");
    res.append(reason.as_str());
    res
}

/// Builds `before`, `middle`, then `after`.
fn enclose(before: &str, middle: &String, after: &str) -> (res: String)
    ensures
        res@ == before@ + middle@ + after@,
{
    let mut res = String::from_str(before);
    res.append(middle.as_str());
    res.append(after);
    res
}

impl FsError {
    /// The message that reports this failure.
    pub fn message(&self) -> (res: String)
        ensures
            res@ == error_message(*self),
    {
        match self {
            FsError::ExistsCheck { path, reason } => {
                let mut res = enclose("failed to check if ", path, " exists: ");
                res.append(reason.as_str());
                res
            },
            FsError::Missing { path } => enclose("expected ", path, " to exist, but it does not"),
            FsError::Unresolvable { path, reason } => failure("failed to evaluate path ", path, reason),
            FsError::Metadata { path, reason } => failure("failed to retrieve metadata for ", path, reason),
            FsError::DirEntry { path, reason } => failure("failed to access directory entry in ", path, reason),
            FsError::ReadDir { path, reason } => failure("failed to read directory ", path, reason),
            FsError::DeleteDir { path, reason } => failure("failed to delete directory ", path, reason),
            FsError::DeleteFile { path, reason } => failure("failed to delete file ", path, reason),
            FsError::ReadFile { path, reason } => failure("failed to read file ", path, reason),
            FsError::WriteFile { path, reason } => failure("failed to write file ", path, reason),
            FsError::CreateDir { path, reason } => failure("failed to create directory ", path, reason),
            FsError::CreateFile { path, reason } => failure("failed to create file ", path, reason),
            FsError::Copy { from, to, reason } => {
                let prefix = enclose("failed to move ", from, " to ");
                failure(prefix.as_str(), to, reason)
            },
            FsError::NotAFile { path } => enclose("expected ", path, " to be a file, but it is not"),
            FsError::NotADir { path } => enclose("expected ", path, " to be a directory, but it is not"),
            FsError::NoFileStem { path } => {
                let mut res = String::from_str("failed to obtain file prefix for ");
                res.append(path.as_str());
                res
            },
            FsError::NotUnicode { name } => enclose("failed to convert ", name, " to unicode"),
        }
    }
}

/// Whether `res` is the error of a lookup of `path` that stopped at
/// canonicalizing it; never so when the path resolved.
pub open spec fn resolution_failed<T>(path: Seq<char>, status: PathStatus<T>, res: Result<(), FsError>) -> bool {
    match status {
        PathStatus::NotFound => res matches Err(FsError::Missing { path: p }) && p@ == path,
        PathStatus::Unresolvable(reason) => res matches Err(FsError::Unresolvable { path: p, reason: r })
            && p@ == path && r@ == reason@,
        PathStatus::Resolved { .. } => false,
    }
}

/// Whether looking a path up found that something is there: it resolved and
/// asking whether it exists did not fail, whatever the answer.
pub open spec fn exists_lookup_passes(status: PathStatus<bool>) -> bool {
    status matches PathStatus::Resolved { probe: Ok(_), .. }
}

/// Whether looking a path up found a file.
pub open spec fn file_lookup_passes(status: PathStatus<EntryKind>) -> bool {
    status matches PathStatus::Resolved { probe: Ok(kind), .. } && kind == EntryKind::File
}

/// Whether looking a path up found a directory.
pub open spec fn dir_lookup_passes(status: PathStatus<EntryKind>) -> bool {
    status matches PathStatus::Resolved { probe: Ok(kind), .. } && kind == EntryKind::Dir
}

/// Classifies the lookup behind `assert_exists`: `Ok` when the path resolves
/// and asking whether the resolved path exists succeeds (whatever it
/// answers), else the error that check fails with.
pub fn check_exists(path: &str, status: &PathStatus<bool>) -> (res: Result<(), FsError>)
    ensures
        res is Ok <==> exists_lookup_passes(*status),
        match *status {
            PathStatus::Resolved { canonical, probe: Err(reason) } => res matches Err(
                FsError::ExistsCheck { path: p, reason: r },
            ) && p@ == canonical@ && r@ == reason@,
            PathStatus::Resolved { .. } => true,
            _ => resolution_failed(path@, *status, res),
        },
{
    match status {
        PathStatus::NotFound => Err(FsError::Missing { path: path.to_owned() }),
        PathStatus::Unresolvable(reason) => Err(
            FsError::Unresolvable { path: path.to_owned(), reason: reason.clone() },
        ),
        PathStatus::Resolved { canonical, probe } => match probe {
            Ok(_) => Ok(()),
            Err(reason) => Err(
                FsError::ExistsCheck { path: canonical.clone(), reason: reason.clone() },
            ),
        },
    }
}

/// Classifies the lookup behind `assert_is_file`: `Ok` when the path
/// resolves to a file, else the error that check fails with (the path is
/// missing or unresolvable, its metadata cannot be read, or it is not a file).
pub fn check_is_file(path: &str, status: &PathStatus<EntryKind>) -> (res: Result<(), FsError>)
    ensures
        res is Ok <==> file_lookup_passes(*status),
        match *status {
            PathStatus::Resolved { canonical, probe: Ok(kind) } => kind != EntryKind::File
                ==> (res matches Err(FsError::NotAFile { path: p }) && p@ == canonical@),
            PathStatus::Resolved { canonical, probe: Err(reason) } => res matches Err(
                FsError::Metadata { path: p, reason: r },
            ) && p@ == canonical@ && r@ == reason@,
            _ => resolution_failed(path@, *status, res),
        },
{
    match status {
        PathStatus::NotFound => Err(FsError::Missing { path: path.to_owned() }),
        PathStatus::Unresolvable(reason) => Err(
            FsError::Unresolvable { path: path.to_owned(), reason: reason.clone() },
        ),
        PathStatus::Resolved { canonical, probe } => match probe {
            Ok(EntryKind::File) => Ok(()),
            Ok(_) => Err(FsError::NotAFile { path: canonical.clone() }),
            Err(reason) => Err(FsError::Metadata { path: canonical.clone(), reason: reason.clone() }),
        },
    }
}

/// Classifies the lookup behind `assert_is_dir`: `Ok` when the path resolves
/// to a directory, else the error that check fails with (the path is missing
/// or unresolvable, its metadata cannot be read, or it is not a directory).
pub fn check_is_dir(path: &str, status: &PathStatus<EntryKind>) -> (res: Result<(), FsError>)
    ensures
        res is Ok <==> dir_lookup_passes(*status),
        match *status {
            PathStatus::Resolved { canonical, probe: Ok(kind) } => kind != EntryKind::Dir
                ==> (res matches Err(FsError::NotADir { path: p }) && p@ == canonical@),
            PathStatus::Resolved { canonical, probe: Err(reason) } => res matches Err(
                FsError::Metadata { path: p, reason: r },
            ) && p@ == canonical@ && r@ == reason@,
            _ => resolution_failed(path@, *status, res),
        },
{
    match status {
        PathStatus::NotFound => Err(FsError::Missing { path: path.to_owned() }),
        PathStatus::Unresolvable(reason) => Err(
            FsError::Unresolvable { path: path.to_owned(), reason: reason.clone() },
        ),
        PathStatus::Resolved { canonical, probe } => match probe {
            Ok(EntryKind::Dir) => Ok(()),
            Ok(_) => Err(FsError::NotADir { path: canonical.clone() }),
            Err(reason) => Err(FsError::Metadata { path: canonical.clone(), reason: reason.clone() }),
        },
    }
}

/// Asserts that something is at `path`. Every other lookup outcome is a
/// failure that panics; `check_exists` gives its error, and this function is
/// only for lookups that pass it.
pub fn assert_exists(path: &str, status: &PathStatus<bool>)
    requires
        exists_lookup_passes(*status),
{
}

/// Asserts that `path` is a file. Every other lookup outcome is a failure
/// that panics; `check_is_file` gives its error, and this function is only
/// for lookups that pass it.
pub fn assert_is_file(path: &str, status: &PathStatus<EntryKind>)
    requires
        file_lookup_passes(*status),
{
}

/// Asserts that `path` is a directory. Every other lookup outcome is a
/// failure that panics; `check_is_dir` gives its error, and this function is
/// only for lookups that pass it.
pub fn assert_is_dir(path: &str, status: &PathStatus<EntryKind>)
    requires
        dir_lookup_passes(*status),
{
}

/// Whether an answer to the question if the output folder may be cleared
/// says yes: trimmed of white space and lower-cased it is `y`. Lower-casing
/// gives `y` for the characters `y` and `Y` alone, and one character never
/// lower-cases to fewer, so that is a trimmed answer of exactly `y` or `Y`.
pub open spec fn is_confirmation(answer: Seq<char>) -> bool {
    trim(answer) == seq!['y'] || trim(answer) == seq!['Y']
}

/// Whether the user's answer confirms that the output folder may be cleared.
pub fn confirms_clearing(answer: &str) -> (res: bool)
    ensures
        res == is_confirmation(answer@),
{
    let v = chars_of(answer);
    let (start, end) = trim_bounds(&v);
    let res = end - start == 1 && (v[start] == 'y' || v[start] == 'Y');
    proof {
        let t = v@.subrange(start as int, end as int);
        assert(t.len() == end - start);
        assert(t.len() > 0 ==> t[0] == v@[start as int]);
        if res {
            if v@[start as int] == 'y' {
                assert(t =~= seq!['y']);
            } else {
                assert(t =~= seq!['Y']);
            }
        } else {
            if t == seq!['y'] {
                assert(seq!['y'].len() == 1 && seq!['y'][0] == 'y');
            }
            if t == seq!['Y'] {
                assert(seq!['Y'].len() == 1 && seq!['Y'][0] == 'Y');
            }
        }
    }
    res
}

/// An answer confirms clearing exactly when it is one `y` or `Y` with only
/// white space around it; so an answer such as `no`, `n`, `yes` or an empty
/// line never does.
pub proof fn lemma_confirmation_is_a_lone_y(answer: Seq<char>)
    ensures
        is_confirmation(answer) <==> exists|i: int|
            #![trigger answer[i]]
            0 <= i < answer.len() && (answer[i] == 'y' || answer[i] == 'Y') && forall|k: int|
                0 <= k < answer.len() && k != i ==> is_white_space(#[trigger] answer[k]),
        is_confirmation(answer) ==> trim(answer).len() == 1 && (trim(answer)[0] == 'y' || trim(
            answer,
        )[0] == 'Y'),
{
    let (b0, b1) = lemma_trim_shape(answer);
    let t = trim(answer);
    assert(t.len() == b1 - b0);
    if is_confirmation(answer) {
        assert(t.len() == 1);
        assert(t[0] == answer[b0]);
        assert(t[0] == 'y' || t[0] == 'Y');
        assert forall|k: int| 0 <= k < answer.len() && k != b0 implies is_white_space(
            #[trigger] answer[k],
        ) by {
            if k >= b0 {
                assert(k >= b1);
            }
        }
        assert(answer[b0] == 'y' || answer[b0] == 'Y');
    }
    if exists|i: int|
        #![trigger answer[i]]
        0 <= i < answer.len() && (answer[i] == 'y' || answer[i] == 'Y') && forall|k: int|
            0 <= k < answer.len() && k != i ==> is_white_space(#[trigger] answer[k]) {
        let i = choose|i: int|
            #![trigger answer[i]]
            0 <= i < answer.len() && (answer[i] == 'y' || answer[i] == 'Y') && forall|k: int|
                0 <= k < answer.len() && k != i ==> is_white_space(#[trigger] answer[k]);
        assert(!is_white_space(answer[i]));
        if b0 == b1 {
            assert(is_white_space(answer[i]));
        }
        assert(b0 < b1);
        if b0 != i {
            assert(b0 > i ==> is_white_space(answer[i]));
            assert(is_white_space(answer[b0]));
        }
        assert(b0 == i);
        if b1 - 1 != i {
            assert(is_white_space(answer[b1 - 1]));
        }
        assert(b1 == i + 1);
        assert(t[0] == answer[i]);
        if answer[i] == 'y' {
            assert(t =~= seq!['y']);
        } else {
            assert(t =~= seq!['Y']);
        }
    }
}


/// What to do before building into the output folder.
#[derive(PartialEq, Eq, Structural, Clone, Copy, Debug)]
pub enum ClearDecision {
    /// Leave the folder alone and stop.
    Abort,
    /// Clear the folder; it already carries the build marker.
    Clear,
    /// Put the build marker into the folder, then clear it.
    MarkThenClear,
}

/// The decision for an output folder that carries the build marker or not,
/// given the user's reply to the question asked when it does not.
pub open spec fn clearing_decision_for(marker_present: bool, answer: Option<Seq<char>>) -> ClearDecision {
    if marker_present {
        ClearDecision::Clear
    } else if answer matches Some(a) && is_confirmation(a) {
        ClearDecision::MarkThenClear
    } else {
        ClearDecision::Abort
    }
}

/// Decides what to do with the output folder. `answer` is the user's reply
/// to the question asked when the folder carries no build marker; when the
/// marker is there no question is asked and the answer plays no part. A
/// folder that the user agrees to clear is marked first.
pub fn clearing_decision(marker_present: bool, answer: Option<&str>) -> (res: ClearDecision)
    ensures
        res == clearing_decision_for(
            marker_present,
            match answer {
                Some(a) => Some(a@),
                None => None,
            },
        ),
{
    if marker_present {
        ClearDecision::Clear
    } else {
        match answer {
            Some(a) => if confirms_clearing(a) {
                ClearDecision::MarkThenClear
            } else {
                ClearDecision::Abort
            },
            None => ClearDecision::Abort,
        }
    }
}

/// What clearing the output folder does with one of its entries.
#[derive(PartialEq, Eq, Structural, Clone, Copy, Debug)]
pub enum EntryAction {
    /// Leave the entry in place.
    Keep,
    /// Delete the entry as a directory, with everything in it.
    RemoveDir,
    /// Delete the entry as a file.
    RemoveFile,
}

/// The action for an entry named `name` of the kind `kind`: the build marker
/// is kept, a directory is removed with its contents, anything else is
/// removed as a file.
pub open spec fn entry_action_for(name: Seq<char>, kind: EntryKind) -> EntryAction {
    if name == build_marker() {
        EntryAction::Keep
    } else if kind == EntryKind::Dir {
        EntryAction::RemoveDir
    } else {
        EntryAction::RemoveFile
    }
}

/// Decides what clearing the output folder does with the entry `name`,
/// whose metadata gave `kind`. The marker's metadata is never needed: a
/// caller that has tested `is_build_marker` first may skip reading it.
pub fn clear_entry_action(name: &str, kind: EntryKind) -> (res: EntryAction)
    ensures
        res == entry_action_for(name@, kind),
{
    if is_build_marker(name) {
        EntryAction::Keep
    } else if kind == EntryKind::Dir {
        EntryAction::RemoveDir
    } else {
        EntryAction::RemoveFile
    }
}

/// Clearing the output folder never deletes the build marker, whatever its
/// metadata says; every other entry that is a directory is deleted with its
/// contents, and every other entry of any other kind is deleted as a file.
pub proof fn lemma_marker_survives_clearing(name: Seq<char>, kind: EntryKind)
    ensures
        (entry_action_for(name, kind) == EntryAction::Keep) <==> name == ".build-folder"@,
        (entry_action_for(name, kind) == EntryAction::RemoveDir) <==> (name != ".build-folder"@
            && kind == EntryKind::Dir),
        (entry_action_for(name, kind) == EntryAction::RemoveFile) <==> (name != ".build-folder"@
            && kind != EntryKind::Dir),
{
}

/// A folder that carries the marker is cleared as it is, whatever the
/// answer; an unmarked folder is marked and cleared exactly when the user
/// confirmed, and left alone otherwise (in particular when no answer was
/// given).
pub proof fn lemma_cleared_only_when_marked_or_confirmed(marker_present: bool, answer: Option<Seq<char>>)
    ensures
        marker_present ==> clearing_decision_for(marker_present, answer) == ClearDecision::Clear,
        !marker_present && answer is None ==> clearing_decision_for(marker_present, answer)
            == ClearDecision::Abort,
        answer matches Some(a) ==> (!marker_present ==> (clearing_decision_for(
            marker_present,
            answer,
        ) == ClearDecision::MarkThenClear <==> is_confirmation(a))),
        answer matches Some(a) ==> (!marker_present ==> (clearing_decision_for(
            marker_present,
            answer,
        ) == ClearDecision::Abort <==> !is_confirmation(a))),
{
}

/// A lookup passes the existence check exactly when the path resolved and
/// asking whether it exists gave an answer, true or false, whatever the
/// canonical path.
pub proof fn lemma_exists_lookup_passes(canonical: String, found: bool, reason: String)
    ensures
        exists_lookup_passes(PathStatus::Resolved { canonical, probe: Ok(found) }),
        !exists_lookup_passes(PathStatus::Resolved { canonical, probe: Err(reason) }),
        !exists_lookup_passes(PathStatus::<bool>::NotFound),
        !exists_lookup_passes(PathStatus::<bool>::Unresolvable(reason)),
{
}

/// A lookup passes the file check exactly when the path resolved and its
/// metadata says it is a file, whatever the canonical path; the directory
/// check likewise with a directory.
pub proof fn lemma_kind_lookup_passes(canonical: String, kind: EntryKind, reason: String)
    ensures
        file_lookup_passes(PathStatus::Resolved { canonical, probe: Ok(kind) }) <==> kind
            == EntryKind::File,
        dir_lookup_passes(PathStatus::Resolved { canonical, probe: Ok(kind) }) <==> kind
            == EntryKind::Dir,
        !file_lookup_passes(PathStatus::Resolved { canonical, probe: Err(reason) }),
        !dir_lookup_passes(PathStatus::Resolved { canonical, probe: Err(reason) }),
        !file_lookup_passes(PathStatus::<EntryKind>::NotFound),
        !dir_lookup_passes(PathStatus::<EntryKind>::NotFound),
        !file_lookup_passes(PathStatus::<EntryKind>::Unresolvable(reason)),
        !dir_lookup_passes(PathStatus::<EntryKind>::Unresolvable(reason)),
{
}

} // verus!
