//! The whole run: the two directories are checked, the archive is found
//! in the source directory and named, and its payload is reconciled with
//! the destination directory.

use crate::archive::{
    payload_of, reconcile, reconciled, state_of, texts, ArchiveEntry, FailureContext,
    FilesystemPort, FilesystemState, IoError, ReconciliationError, ReconciliationOutcome,
    ReplaceReason, SkipReason, Step,
};
use crate::naming::{destination_name, get_destination_file_name, NamingError};
use crate::paths::{extension_of, file_extension};
use crate::text::chars_of;
use vstd::prelude::*;

verus! {

/// Why a pair of working directories was turned down.
#[derive(Clone, Copy, Debug, PartialEq, Eq)]
pub enum PathError {
    /// The source path does not name a directory.
    SourceNotDirectory,
    /// The destination path does not name a directory.
    DestinationNotDirectory,
}

/// Why no archive was found.
#[derive(Debug, PartialEq, Eq)]
pub enum LocateError {
    /// The source directory could not be read.
    Unreadable(IoError),
    /// The source directory holds no file with the extension `rar`.
    NotFound,
}

/// Why a run ended without a destination file.
#[derive(Debug, PartialEq, Eq)]
pub enum RunError {
    /// One of the two paths is no directory.
    Paths(PathError),
    /// No archive was found in the source directory.
    Locate(LocateError),
    /// The archive was given no destination name.
    Naming(NamingError),
    /// The archive's payload was not reconciled with the destination.
    Reconciliation(ReconciliationError),
}

/// Whether a path has the extension `rar`.
pub open spec fn has_rar_extension(path: Seq<char>) -> bool {
    extension_of(path) == Some(seq!['r', 'a', 'r'])
}

/// The first of the paths that has the extension `rar`.
pub open spec fn first_archive(paths: Seq<Seq<char>>) -> Option<Seq<char>>
    decreases paths.len(),
{
    if paths.len() == 0 {
        None
    } else if has_rar_extension(paths[0]) {
        Some(paths[0])
    } else {
        first_archive(paths.drop_first())
    }
}

/// Whether the two directories are accepted: the source is judged first.
pub open spec fn paths_verified(directories: Set<Seq<char>>, source: Seq<char>, destination: Seq<
    char,
>) -> Result<(), PathError> {
    if !directories.contains(source) {
        Err(PathError::SourceNotDirectory)
    } else if !directories.contains(destination) {
        Err(PathError::DestinationNotDirectory)
    } else {
        Ok(())
    }
}

/// Whether the reconciliation may have ended well, in any outcome.
pub open spec fn completed(
    before: FilesystemState,
    entries: Seq<ArchiveEntry>,
    canonical_name: Seq<char>,
    destination_dir: Seq<char>,
    after: FilesystemState,
) -> bool {
    ||| reconciled(
        before,
        entries,
        canonical_name,
        destination_dir,
        Ok(ReconciliationOutcome::Extracted),
        after,
    )
    ||| reconciled(
        before,
        entries,
        canonical_name,
        destination_dir,
        Ok(ReconciliationOutcome::Skipped(SkipReason::SizeMatches)),
        after,
    )
    ||| reconciled(
        before,
        entries,
        canonical_name,
        destination_dir,
        Ok(ReconciliationOutcome::Replaced(ReplaceReason::SizeMismatch)),
        after,
    )
}

/// How the unpacking of the archive at `rar_file` may end, and with it the
/// filesystem: in a failure to open the archive, which changes nothing and
/// which a reliable filesystem has only where no archive is there, or as
/// the reconciliation of its entries ends.
pub open spec fn extracted<F: FilesystemPort>(
    before: F,
    rar_file: Seq<char>,
    destination_directory: Seq<char>,
    file_name: Seq<char>,
    r: Result<ReconciliationOutcome, ReconciliationError>,
    after: F,
) -> bool {
    ||| {
        &&& r matches Err(ReconciliationError::ExtractFailure(context))
        &&& context.step == Step::Open
        &&& context.path@ == rar_file
        &&& state_of(after) == state_of(before)
        &&& before.archive(rar_file) is None || !before.reliable()
    }
    ||| {
        &&& before.archive(rar_file) matches Some(entries)
        &&& reconciled(
            state_of(before),
            entries,
            file_name,
            destination_directory,
            r,
            state_of(after),
        )
    }
}

/// How a run may end, and with it the filesystem.
pub open spec fn ran<F: FilesystemPort>(
    before: F,
    source: Seq<char>,
    destination: Seq<char>,
    r: Result<String, RunError>,
    after: F,
) -> bool {
    match paths_verified(before.directories(), source, destination) {
        Err(e) => r == Err::<String, RunError>(RunError::Paths(e)) && state_of(after) == state_of(
            before,
        ),
        Ok(()) => match r {
            Err(RunError::Paths(_)) => false,
            Err(RunError::Locate(LocateError::Unreadable(_))) => {
                &&& !before.reliable()
                &&& state_of(after) == state_of(before)
            },
            Err(RunError::Locate(LocateError::NotFound)) => {
                &&& first_archive(before.listing(source)) is None
                &&& state_of(after) == state_of(before)
            },
            Err(RunError::Naming(e)) => {
                &&& first_archive(before.listing(source)) matches Some(rar_file)
                &&& destination_name(rar_file) == Err::<Seq<char>, NamingError>(e)
                &&& state_of(after) == state_of(before)
            },
            Err(RunError::Reconciliation(e)) => {
                &&& first_archive(before.listing(source)) matches Some(rar_file)
                &&& destination_name(rar_file) matches Ok(name)
                &&& extracted(before, rar_file, destination, name, Err(e), after)
            },
            Ok(file_name) => {
                &&& first_archive(before.listing(source)) matches Some(rar_file)
                &&& destination_name(rar_file) == Ok::<Seq<char>, NamingError>(file_name@)
                &&& before.archive(rar_file) matches Some(entries)
                &&& completed(state_of(before), entries, file_name@, destination, state_of(after))
            },
        },
    }
}

/// On a reliable filesystem a run succeeds, and gives the archive's
/// destination name, wherever both paths are directories, the source
/// directory lists an archive whose name can be classified, the archive is
/// there, and its payload has an extension.
pub proof fn lemma_run_succeeds<F: FilesystemPort>(
    before: F,
    source: Seq<char>,
    destination: Seq<char>,
    r: Result<String, RunError>,
    after: F,
)
    requires
        before.reliable(),
        before.directories().contains(source),
        before.directories().contains(destination),
        ({
            &&& first_archive(before.listing(source)) matches Some(rar_file)
            &&& destination_name(rar_file) is Ok
            &&& before.archive(rar_file) matches Some(entries)
            &&& payload_of(entries) matches Some(entry)
            &&& extension_of(entry.relative_name@) is Some
        }),
        ran(before, source, destination, r, after),
    ensures
        r matches Ok(name) && destination_name(first_archive(before.listing(source))->0) == Ok::<
            Seq<char>,
            NamingError,
        >(name@),
{
}

/// Accepts the two working directories when both are directories; the
/// source is judged first.
pub fn verify_paths<F: FilesystemPort>(
    source_directory: &str,
    destination_directory: &str,
    port: &F,
) -> (r: Result<(), PathError>)
    ensures
        r == paths_verified(port.directories(), source_directory@, destination_directory@),
{
    if !port.is_directory(source_directory) {
        return Err(PathError::SourceNotDirectory);
    }
    if !port.is_directory(destination_directory) {
        return Err(PathError::DestinationNotDirectory);
    }
    Ok(())
}

fn is_rar(path: &str) -> (found: bool)
    ensures
        found == has_rar_extension(path@),
{
    match file_extension(path) {
        None => false,
        Some(extension) => {
            let chars = chars_of(extension.as_str());
            let found = chars.len() == 3 && chars[0] == 'r' && chars[1] == 'a' && chars[2] == 'r';
            proof {
                if found {
                    assert(chars@ == seq!['r', 'a', 'r']);
                } else if chars@ == seq!['r', 'a', 'r'] {
                    assert(chars@.len() == 3 && chars@[0] == 'r' && chars@[1] == 'a' && chars@[2]
                        == 'r');
                }
            }
            found
        },
    }
}

/// The place of the first path with the extension `rar`.
pub fn first_rar(paths: &Vec<String>) -> (place: Option<usize>)
    ensures
        match place {
            Some(i) => i < paths.len() && first_archive(texts(paths@)) == Some(
                paths@[i as int]@,
            ),
            None => first_archive(texts(paths@)) is None,
        },
{
    let ghost all = texts(paths@);
    let mut i: usize = 0;
    assert(all.skip(0) == all);
    while i < paths.len()
        invariant
            i <= paths.len(),
            all == texts(paths@),
            first_archive(all) == first_archive(all.skip(i as int)),
        decreases paths.len() - i,
    {
        if is_rar(paths[i].as_str()) {
            return Some(i);
        }
        assert(all.skip(i as int).drop_first() == all.skip(i + 1));
        i += 1;
    }
    None
}

/// Finds the archive in the source directory: the first path that the
/// directory lists with the extension `rar`.
pub fn find_rar_file<F: FilesystemPort>(source_directory: &str, port: &F) -> (r: Result<
    String,
    LocateError,
>)
    ensures
        match r {
            Ok(rar_file) => first_archive(port.listing(source_directory@)) == Some(rar_file@),
            Err(LocateError::NotFound) => first_archive(port.listing(source_directory@)) is None,
            Err(LocateError::Unreadable(_)) => !port.reliable() || !port.directories().contains(
                source_directory@,
            ),
        },
{
    let paths = match port.list_directory(source_directory) {
        Ok(paths) => paths,
        Err(e) => { return Err(LocateError::Unreadable(e)); },
    };
    match first_rar(&paths) {
        Some(place) => Ok(paths[place].clone()),
        None => Err(LocateError::NotFound),
    }
}

/// Unpacks the payload of the archive at `rar_file` into the destination
/// directory under the given name, unless a file of its size is there
/// already.
pub fn extract_rar_file<F: FilesystemPort>(
    rar_file: &str,
    destination_directory: &str,
    file_name: &str,
    port: &mut F,
) -> (r: Result<ReconciliationOutcome, ReconciliationError>)
    ensures
        extracted(
            *old(port),
            rar_file@,
            destination_directory@,
            file_name@,
            r,
            *final(port),
        ),
{
    let entries = match port.open_archive(rar_file) {
        Ok(entries) => entries,
        Err(e) => {
            return Err(
                ReconciliationError::ExtractFailure(
                    FailureContext {
                        step: Step::Open,
                        path: rar_file.to_owned(),
                        message: e.message,
                    },
                ),
            );
        },
    };
    reconcile(&entries, file_name, destination_directory, port)
}

/// Runs the whole: checks the two directories, finds the archive in the
/// source directory, names its payload after the archive, and reconciles
/// the payload with the destination directory. Gives the name under which
/// the payload stands there.
pub fn run<F: FilesystemPort>(source_directory: &str, destination_directory: &str, port: &mut F) -> (r:
    Result<String, RunError>)
    ensures
        ran(*old(port), source_directory@, destination_directory@, r, *final(port)),
{
    match verify_paths(source_directory, destination_directory, port) {
        Ok(()) => {},
        Err(e) => { return Err(RunError::Paths(e)); },
    }
    let rar_file = match find_rar_file(source_directory, port) {
        Ok(rar_file) => rar_file,
        Err(e) => { return Err(RunError::Locate(e)); },
    };
    let destination_file_name = match get_destination_file_name(rar_file.as_str()) {
        Ok(name) => name,
        Err(e) => { return Err(RunError::Naming(e)); },
    };
    match extract_rar_file(
        rar_file.as_str(),
        destination_directory,
        destination_file_name.as_str(),
        port,
    ) {
        Ok(_) => Ok(destination_file_name),
        Err(e) => Err(RunError::Reconciliation(e)),
    }
}

} // verus!
