//! The entries of an archive, the interface through which the filesystem
//! is reached, and the reconciliation of an archive's payload with what
//! the destination directory already holds.

use crate::paths::{destination_of, destination_path, extension_of, file_extension};
use vstd::prelude::*;

verus! {

/// One entry of an archive, as its header describes it.
#[derive(Debug, PartialEq, Eq)]
pub struct ArchiveEntry {
    /// Whether the entry is a directory rather than a file.
    pub is_directory: bool,
    /// The entry's name inside the archive, with `/` between components.
    pub relative_name: String,
    /// The size of the entry's content once unpacked, in bytes.
    pub uncompressed_size: u64,
}

/// Why a read or a removal failed, in the words of whoever did it.
#[derive(Debug, PartialEq, Eq)]
pub struct IoError {
    pub message: String,
}

/// Why an archive could not be read or unpacked, in the words of whoever
/// tried.
#[derive(Debug, PartialEq, Eq)]
pub struct ExtractError {
    pub message: String,
}

/// Strings as plain values.
pub open spec fn texts(strings: Seq<String>) -> Seq<Seq<char>> {
    Seq::new(strings.len(), |i: int| strings[i]@)
}

/// A change that was asked of the filesystem.
pub enum Mutation {
    /// The removal of what is at a path.
    Delete { path: Seq<char> },
    /// The unpacking of an entry of the given size to a path.
    Extract { path: Seq<char>, size: nat },
}

/// The filesystem and the open archive, as far as this library uses them.
///
/// An implementation answers for what the specification functions say of
/// it: the contracts below are what the library is proved against. One
/// that is `reliable` promises that an operation succeeds wherever there
/// is something for it to work on; one that is not promises only that a
/// failure has the effects stated. An implementation that states no model
/// of its own is not reliable, and what it holds is left open.
pub trait FilesystemPort {
    /// Whether operations succeed wherever there is something for them to
    /// work on.
    open spec fn reliable(&self) -> bool {
        false
    }

    /// What exists, by path, with its length in bytes.
    open spec fn files(&self) -> Map<Seq<char>, nat> {
        arbitrary()
    }

    /// The changes asked of the filesystem so far, oldest first.
    open spec fn mutations(&self) -> Seq<Mutation> {
        arbitrary()
    }

    /// The paths that are directories.
    open spec fn directories(&self) -> Set<Seq<char>> {
        arbitrary()
    }

    /// The paths of what a directory holds, in the order in which the
    /// directory is read.
    open spec fn listing(&self, directory: Seq<char>) -> Seq<Seq<char>> {
        arbitrary()
    }

    /// The entries of the archive at a path, in the archive's order, where
    /// an archive is there.
    open spec fn archive(&self, path: Seq<char>) -> Option<Seq<ArchiveEntry>> {
        arbitrary()
    }

    /// Whether the path is a directory.
    fn is_directory(&self, path: &str) -> (found: bool)
        ensures
            found == self.directories().contains(path@),
    ;

    /// Reads a directory: the paths of what it holds.
    fn list_directory(&self, path: &str) -> (r: Result<Vec<String>, IoError>)
        ensures
            r matches Ok(paths) ==> texts(paths@) == self.listing(path@),
            self.reliable() && self.directories().contains(path@) ==> r is Ok,
    ;

    /// Opens the archive at the path and reads its entries. It is the
    /// entries of the archive opened last that `extract_entry_to` unpacks.
    fn open_archive(&mut self, path: &str) -> (r: Result<Vec<ArchiveEntry>, ExtractError>)
        ensures
            final(self).files() == old(self).files(),
            final(self).mutations() == old(self).mutations(),
            final(self).reliable() == old(self).reliable(),
            r matches Ok(entries) ==> old(self).archive(path@) == Some(entries@),
            old(self).reliable() && old(self).archive(path@) is Some ==> r is Ok,
    ;

    /// Whether anything exists at the path.
    fn path_exists(&self, path: &str) -> (found: bool)
        ensures
            found == self.files().contains_key(path@),
    ;

    /// The length in bytes of what is at the path.
    fn size_of(&self, path: &str) -> (r: Result<u64, IoError>)
        ensures
            r matches Ok(size) ==> self.files().contains_key(path@) && self.files()[path@] == size,
            self.reliable() && self.files().contains_key(path@) ==> r is Ok,
    ;

    /// Removes what is at the path. A failed removal leaves everything in
    /// place.
    fn delete(&mut self, path: &str) -> (r: Result<(), IoError>)
        ensures
            final(self).mutations() == old(self).mutations().push(Mutation::Delete { path: path@ }),
            final(self).reliable() == old(self).reliable(),
            r is Ok ==> final(self).files() == old(self).files().remove(path@),
            r is Err ==> final(self).files() == old(self).files(),
            old(self).reliable() && old(self).files().contains_key(path@) ==> r is Ok,
    ;

    /// Unpacks the entry to the path. A failed unpacking may leave
    /// anything at that path, and leaves every other path as it was.
    fn extract_entry_to(&mut self, entry: &ArchiveEntry, path: &str) -> (r: Result<
        (),
        ExtractError,
    >)
        ensures
            final(self).mutations() == old(self).mutations().push(
                Mutation::Extract { path: path@, size: entry.uncompressed_size as nat },
            ),
            r is Ok ==> final(self).files() == old(self).files().insert(
                path@,
                entry.uncompressed_size as nat,
            ),
            r is Err ==> final(self).files().remove(path@) == old(self).files().remove(path@),
            final(self).reliable() == old(self).reliable(),
            old(self).reliable() ==> r is Ok,
    ;
}

/// Why an existing destination file was left alone.
#[derive(Clone, Copy, Debug, PartialEq, Eq)]
pub enum SkipReason {
    /// It has the size of the entry: it was unpacked before.
    SizeMatches,
}

/// Why an existing destination file was replaced.
#[derive(Clone, Copy, Debug, PartialEq, Eq)]
pub enum ReplaceReason {
    /// Its size differs from the entry's.
    SizeMismatch,
}

/// What became of the payload entry.
#[derive(Clone, Copy, Debug, PartialEq, Eq)]
pub enum ReconciliationOutcome {
    /// Nothing was at the destination: the entry was unpacked there.
    Extracted,
    /// The destination was left as it was.
    Skipped(SkipReason),
    /// The destination was removed and the entry unpacked in its place.
    Replaced(ReplaceReason),
}

impl ReconciliationOutcome {
    /// The reason that comes with the outcome, in words.
    pub fn reason(&self) -> (text: Option<&'static str>)
        ensures
            match *self {
                ReconciliationOutcome::Extracted => text is None,
                ReconciliationOutcome::Skipped(SkipReason::SizeMatches) => text matches Some(t)
                    && t@ == "already extracted, size matches"@,
                ReconciliationOutcome::Replaced(ReplaceReason::SizeMismatch) => text matches Some(
                    t,
                ) && t@ == "size mismatch"@,
            },
    {
        match self {
            ReconciliationOutcome::Extracted => None,
            ReconciliationOutcome::Skipped(SkipReason::SizeMatches) => Some(
                "already extracted, size matches",
            ),
            ReconciliationOutcome::Replaced(ReplaceReason::SizeMismatch) => Some("size mismatch"),
        }
    }
}

/// The step of a reconciliation at which the filesystem failed.
#[derive(Clone, Copy, Debug, PartialEq, Eq)]
pub enum Step {
    /// Opening the archive and reading its entries.
    Open,
    /// Reading the size of what is at the destination.
    ReadSize,
    /// Removing what is at the destination.
    Delete,
    /// Unpacking the payload to the destination.
    Extract,
}

/// Where a reconciliation failed: the step, the path it was about, and
/// the words of the failure.
#[derive(Debug, PartialEq, Eq)]
pub struct FailureContext {
    pub step: Step,
    pub path: String,
    pub message: String,
}

/// Why a reconciliation ended without an outcome.
#[derive(Debug, PartialEq, Eq)]
pub enum ReconciliationError {
    /// The payload entry's name has no extension.
    NoExtension,
    /// The archive holds directories only.
    NoPayloadEntry,
    /// The size of the destination could not be read, or the destination
    /// could not be removed.
    IoFailure(FailureContext),
    /// The archive could not be opened, or the entry could not be unpacked.
    ExtractFailure(FailureContext),
}

/// Whether every entry is a directory.
pub open spec fn only_directories(entries: Seq<ArchiveEntry>) -> bool {
    forall|i: int| 0 <= i < entries.len() ==> (#[trigger] entries[i]).is_directory
}

/// The payload of an archive: its first entry that is not a directory.
pub open spec fn payload_of(entries: Seq<ArchiveEntry>) -> Option<ArchiveEntry>
    decreases entries.len(),
{
    if entries.len() == 0 {
        None
    } else if !entries[0].is_directory {
        Some(entries[0])
    } else {
        payload_of(entries.drop_first())
    }
}

/// What to do about a payload of the given size, where `existing` is the
/// size of what the destination holds, if anything.
pub open spec fn decision(size: nat, existing: Option<nat>) -> ReconciliationOutcome {
    match existing {
        None => ReconciliationOutcome::Extracted,
        Some(found) => if found == size {
            ReconciliationOutcome::Skipped(SkipReason::SizeMatches)
        } else {
            ReconciliationOutcome::Replaced(ReplaceReason::SizeMismatch)
        },
    }
}

/// The changes that an outcome asks of the filesystem, in order.
pub open spec fn changes(outcome: ReconciliationOutcome, path: Seq<char>, size: nat) -> Seq<
    Mutation,
> {
    match outcome {
        ReconciliationOutcome::Extracted => seq![Mutation::Extract { path, size }],
        ReconciliationOutcome::Skipped(_) => seq![],
        ReconciliationOutcome::Replaced(_) => seq![
            Mutation::Delete { path },
            Mutation::Extract { path, size },
        ],
    }
}

/// What is at a path, if anything.
pub open spec fn existing_at(files: Map<Seq<char>, nat>, path: Seq<char>) -> Option<nat> {
    if files.contains_key(path) {
        Some(files[path])
    } else {
        None
    }
}

/// The state of a filesystem, as plain values.
pub struct FilesystemState {
    pub files: Map<Seq<char>, nat>,
    pub mutations: Seq<Mutation>,
    pub reliable: bool,
}

/// Whether a failure is about the given step and path.
pub open spec fn failed_at(context: FailureContext, step: Step, path: Seq<char>) -> bool {
    context.step == step && context.path@ == path
}

/// How a payload of the given size, bound for the path `to`, may end, and
/// with it the filesystem: in the outcome that `decision` names where the
/// filesystem does all it is asked, as a reliable one does, and else in
/// the failure of the first step that failed, with nothing asked after it.
pub open spec fn payload_reconciled(
    before: FilesystemState,
    size: nat,
    to: Seq<char>,
    r: Result<ReconciliationOutcome, ReconciliationError>,
    after: FilesystemState,
) -> bool {
    let outcome = decision(size, existing_at(before.files, to));
    &&& after.reliable == before.reliable
    &&& before.reliable ==> r is Ok
    &&& match r {
        Ok(done) => {
            &&& done == outcome
            &&& after.mutations == before.mutations + changes(outcome, to, size)
            &&& after.files == if outcome is Skipped {
                before.files
            } else {
                before.files.insert(to, size)
            }
        },
        Err(ReconciliationError::IoFailure(context)) => {
            &&& before.files.contains_key(to)
            &&& after.files == before.files
            &&& {
                ||| {
                    &&& failed_at(context, Step::ReadSize, to)
                    &&& after.mutations == before.mutations
                }
                ||| {
                    &&& outcome is Replaced
                    &&& failed_at(context, Step::Delete, to)
                    &&& after.mutations == before.mutations.push(Mutation::Delete { path: to })
                }
            }
        },
        Err(ReconciliationError::ExtractFailure(context)) => {
            &&& !(outcome is Skipped)
            &&& failed_at(context, Step::Extract, to)
            &&& after.mutations == before.mutations + changes(outcome, to, size)
            &&& after.files.remove(to) == before.files.remove(to)
        },
        Err(_) => false,
    }
}

/// How the reconciliation of an archive's entries with a destination
/// directory may end, and with it the filesystem. Directories are passed
/// over; the first other entry is the payload, and nothing after it is
/// looked at.
pub open spec fn reconciled(
    before: FilesystemState,
    entries: Seq<ArchiveEntry>,
    canonical_name: Seq<char>,
    destination_dir: Seq<char>,
    r: Result<ReconciliationOutcome, ReconciliationError>,
    after: FilesystemState,
) -> bool {
    match payload_of(entries) {
        None => r == Err::<ReconciliationOutcome, ReconciliationError>(
            ReconciliationError::NoPayloadEntry,
        ) && after == before,
        Some(entry) => match extension_of(entry.relative_name@) {
            None => r == Err::<ReconciliationOutcome, ReconciliationError>(
                ReconciliationError::NoExtension,
            ) && after == before,
            Some(extension) => payload_reconciled(
                before,
                entry.uncompressed_size as nat,
                destination_of(destination_dir, canonical_name, extension),
                r,
                after,
            ),
        },
    }
}

/// The state of a filesystem.
pub open spec fn state_of<F: FilesystemPort>(port: F) -> FilesystemState {
    FilesystemState { files: port.files(), mutations: port.mutations(), reliable: port.reliable() }
}

/// What to do about a payload of the given size, where `existing` is the
/// size of what the destination holds, if anything.
pub fn decide(size: u64, existing: Option<u64>) -> (outcome: ReconciliationOutcome)
    ensures
        outcome == decision(
            size as nat,
            match existing {
                Some(found) => Some(found as nat),
                None => None::<nat>,
            },
        ),
{
    match existing {
        None => ReconciliationOutcome::Extracted,
        Some(found) => if found == size {
            ReconciliationOutcome::Skipped(SkipReason::SizeMatches)
        } else {
            ReconciliationOutcome::Replaced(ReplaceReason::SizeMismatch)
        },
    }
}

/// The place of the payload among the entries.
pub fn find_payload(entries: &Vec<ArchiveEntry>) -> (place: Option<usize>)
    ensures
        match place {
            Some(i) => i < entries.len() && payload_of(entries@) == Some(entries@[i as int]),
            None => payload_of(entries@) is None,
        },
{
    let mut i: usize = 0;
    assert(entries@.skip(0) == entries@);
    while i < entries.len()
        invariant
            i <= entries.len(),
            payload_of(entries@) == payload_of(entries@.skip(i as int)),
        decreases entries.len() - i,
    {
        if !entries[i].is_directory {
            return Some(i);
        }
        assert(entries@.skip(i as int).drop_first() == entries@.skip(i + 1));
        i += 1;
    }
    None
}

/// Directories ahead of an archive's entries do not change its payload.
pub proof fn lemma_leading_directories(directories: Seq<ArchiveEntry>, rest: Seq<ArchiveEntry>)
    requires
        only_directories(directories),
    ensures
        payload_of(directories + rest) == payload_of(rest),
    decreases directories.len(),
{
    if directories.len() == 0 {
        assert(directories + rest == rest);
    } else {
        assert((directories + rest)[0] == directories[0]);
        assert((directories + rest).drop_first() == directories.drop_first() + rest);
        assert forall|i: int| 0 <= i < directories.drop_first().len() implies (
        #[trigger] directories.drop_first()[i]).is_directory by {
            assert(directories[i + 1].is_directory);
        }
        lemma_leading_directories(directories.drop_first(), rest);
    }
}

/// Directories ahead of the payload are passed over without a trace: with
/// or without them a reconciliation can end in the same ways.
pub proof fn lemma_directories_passed_over(
    before: FilesystemState,
    directories: Seq<ArchiveEntry>,
    rest: Seq<ArchiveEntry>,
    canonical_name: Seq<char>,
    destination_dir: Seq<char>,
    r: Result<ReconciliationOutcome, ReconciliationError>,
    after: FilesystemState,
)
    requires
        only_directories(directories),
    ensures
        reconciled(before, directories + rest, canonical_name, destination_dir, r, after)
            == reconciled(before, rest, canonical_name, destination_dir, r, after),
{
    lemma_leading_directories(directories, rest);
}

/// An archive of directories only has no payload: its reconciliation
/// fails with `NoPayloadEntry` and asks nothing of the filesystem.
pub proof fn lemma_only_directories(
    before: FilesystemState,
    entries: Seq<ArchiveEntry>,
    canonical_name: Seq<char>,
    destination_dir: Seq<char>,
    r: Result<ReconciliationOutcome, ReconciliationError>,
    after: FilesystemState,
)
    requires
        only_directories(entries),
        reconciled(before, entries, canonical_name, destination_dir, r, after),
    ensures
        r == Err::<ReconciliationOutcome, ReconciliationError>(ReconciliationError::NoPayloadEntry),
        after == before,
{
    lemma_leading_directories(entries, Seq::empty());
    assert(entries + Seq::<ArchiveEntry>::empty() == entries);
}

/// A payload whose name has no extension fails the reconciliation with
/// `NoExtension`, and nothing is asked of the filesystem.
pub proof fn lemma_no_extension(
    before: FilesystemState,
    entries: Seq<ArchiveEntry>,
    canonical_name: Seq<char>,
    destination_dir: Seq<char>,
    r: Result<ReconciliationOutcome, ReconciliationError>,
    after: FilesystemState,
)
    requires
        payload_of(entries) matches Some(entry) && extension_of(entry.relative_name@) is None,
        reconciled(before, entries, canonical_name, destination_dir, r, after),
    ensures
        r == Err::<ReconciliationOutcome, ReconciliationError>(ReconciliationError::NoExtension),
        after == before,
{
}

/// Where the destination holds a file of another size than the payload's,
/// a reconciliation that succeeds has removed that file and then unpacked
/// the payload in its place.
pub proof fn lemma_size_mismatch_replaces(
    before: FilesystemState,
    size: nat,
    to: Seq<char>,
    r: Result<ReconciliationOutcome, ReconciliationError>,
    after: FilesystemState,
)
    requires
        before.files.contains_key(to),
        before.files[to] != size,
        payload_reconciled(before, size, to, r, after),
        r is Ok,
    ensures
        r == Ok::<ReconciliationOutcome, ReconciliationError>(
            ReconciliationOutcome::Replaced(ReplaceReason::SizeMismatch),
        ),
        after.files == before.files.insert(to, size),
        after.mutations == before.mutations.push(Mutation::Delete { path: to }).push(
            Mutation::Extract { path: to, size },
        ),
{
    assert(before.mutations + seq![Mutation::Delete { path: to }, Mutation::Extract { path: to, size }]
        == before.mutations.push(Mutation::Delete { path: to }).push(
        Mutation::Extract { path: to, size },
    ));
}

/// On a reliable filesystem the reconciliation of an archive whose payload
/// has an extension succeeds, in the outcome that the size at the
/// destination decides, with its changes asked in order and nothing else.
pub proof fn lemma_reconcile_succeeds(
    before: FilesystemState,
    entries: Seq<ArchiveEntry>,
    canonical_name: Seq<char>,
    destination_dir: Seq<char>,
    r: Result<ReconciliationOutcome, ReconciliationError>,
    after: FilesystemState,
)
    requires
        before.reliable,
        payload_of(entries) matches Some(entry) && extension_of(entry.relative_name@) is Some,
        reconciled(before, entries, canonical_name, destination_dir, r, after),
    ensures
        ({
            let entry = payload_of(entries)->0;
            let size = entry.uncompressed_size as nat;
            let to = destination_of(
                destination_dir,
                canonical_name,
                extension_of(entry.relative_name@)->0,
            );
            let outcome = decision(size, existing_at(before.files, to));
            &&& r == Ok::<ReconciliationOutcome, ReconciliationError>(outcome)
            &&& after.mutations == before.mutations + changes(outcome, to, size)
            &&& after.files.contains_key(to) && after.files[to] == size
            &&& forall|other: Seq<char>|
                other != to ==> existing_at(after.files, other) == existing_at(before.files, other)
        }),
{
}

/// Reconciling the same entries a second time, after a first time that
/// succeeded, asks nothing of the filesystem and leaves it as it was: the
/// second run skips the payload, unless the size of the destination cannot
/// be read, which does not happen on a reliable filesystem.
pub proof fn lemma_second_run_skips(
    start: FilesystemState,
    entries: Seq<ArchiveEntry>,
    canonical_name: Seq<char>,
    destination_dir: Seq<char>,
    first: Result<ReconciliationOutcome, ReconciliationError>,
    between: FilesystemState,
    second: Result<ReconciliationOutcome, ReconciliationError>,
    after: FilesystemState,
)
    requires
        reconciled(start, entries, canonical_name, destination_dir, first, between),
        first is Ok,
        reconciled(between, entries, canonical_name, destination_dir, second, after),
    ensures
        after == between,
        second is Ok ==> second == Ok::<ReconciliationOutcome, ReconciliationError>(
            ReconciliationOutcome::Skipped(SkipReason::SizeMatches),
        ),
        second is Err ==> !start.reliable,
        second matches Err(e) ==> e matches ReconciliationError::IoFailure(context)
            && context.step == Step::ReadSize,
{
    let entry = payload_of(entries)->0;
    let extension = extension_of(entry.relative_name@)->0;
    let to = destination_of(destination_dir, canonical_name, extension);
    let size = entry.uncompressed_size as nat;
    assert(existing_at(between.files, to) == Some(size));
    assert(between.mutations + changes(
        ReconciliationOutcome::Skipped(SkipReason::SizeMatches),
        to,
        size,
    ) == between.mutations);
}

/// Reconciles one payload entry with what is at its destination: unpacks
/// it where nothing is there, leaves a file of the entry's size alone, and
/// replaces any other. The first failure of the filesystem ends it.
pub fn reconcile_payload<F: FilesystemPort>(
    entry: &ArchiveEntry,
    destination: String,
    fs: &mut F,
) -> (r: Result<ReconciliationOutcome, ReconciliationError>)
    ensures
        payload_reconciled(
            state_of(*old(fs)),
            entry.uncompressed_size as nat,
            destination@,
            r,
            state_of(*final(fs)),
        ),
{
    let ghost before = state_of(*fs);
    let ghost to = destination@;
    let ghost size = entry.uncompressed_size as nat;
    let existing = if fs.path_exists(destination.as_str()) {
        match fs.size_of(destination.as_str()) {
            Ok(found) => Some(found),
            Err(e) => {
                return Err(
                    ReconciliationError::IoFailure(
                        FailureContext {
                            step: Step::ReadSize,
                            path: destination,
                            message: e.message,
                        },
                    ),
                );
            },
        }
    } else {
        None
    };
    let outcome = decide(entry.uncompressed_size, existing);
    assert(outcome == decision(size, existing_at(before.files, to)));
    match outcome {
        ReconciliationOutcome::Skipped(_) => {
            assert(before.mutations + changes(outcome, to, size) == before.mutations);
            return Ok(outcome);
        },
        ReconciliationOutcome::Replaced(_) => {
            match fs.delete(destination.as_str()) {
                Ok(()) => {},
                Err(e) => {
                    return Err(
                        ReconciliationError::IoFailure(
                            FailureContext {
                                step: Step::Delete,
                                path: destination,
                                message: e.message,
                            },
                        ),
                    );
                },
            }
        },
        ReconciliationOutcome::Extracted => {},
    }
    let ghost cleared = state_of(*fs);
    match fs.extract_entry_to(entry, destination.as_str()) {
        Ok(()) => {
            proof {
                assert(state_of(*fs).mutations == before.mutations + changes(outcome, to, size));
                assert(cleared.files.insert(to, size) == before.files.insert(to, size));
            }
            Ok(outcome)
        },
        Err(e) => {
            proof {
                assert(state_of(*fs).mutations == before.mutations + changes(outcome, to, size));
                assert(cleared.files.remove(to) == before.files.remove(to));
            }
            Err(
                ReconciliationError::ExtractFailure(
                    FailureContext { step: Step::Extract, path: destination, message: e.message },
                ),
            )
        },
    }
}

/// Reconciles the entries of an archive with a destination directory.
/// Directories are passed over. The first other entry is the payload: it
/// is bound for the file in `destination_dir` named `canonical_name`, with
/// the extension of the entry's own name, and is unpacked there unless a
/// file of its size is there already. No later entry is looked at.
pub fn reconcile<F: FilesystemPort>(
    entries: &Vec<ArchiveEntry>,
    canonical_name: &str,
    destination_dir: &str,
    fs: &mut F,
) -> (r: Result<ReconciliationOutcome, ReconciliationError>)
    ensures
        reconciled(
            state_of(*old(fs)),
            entries@,
            canonical_name@,
            destination_dir@,
            r,
            state_of(*final(fs)),
        ),
{
    let place = match find_payload(entries) {
        Some(place) => place,
        None => { return Err(ReconciliationError::NoPayloadEntry); },
    };
    let entry = &entries[place];
    let extension = match file_extension(entry.relative_name.as_str()) {
        Some(extension) => extension,
        None => { return Err(ReconciliationError::NoExtension); },
    };
    let destination = destination_path(destination_dir, canonical_name, extension.as_str());
    reconcile_payload(entry, destination, fs)
}

} // verus!
