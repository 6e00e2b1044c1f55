//! A filesystem kept in memory: it holds what it is told to hold and
//! remembers what was asked of it.

use crate::archive::{
    existing_at, texts, ArchiveEntry, ExtractError, FilesystemPort, IoError, Mutation,
};
use crate::text::same_text;
use vstd::prelude::*;

verus! {

/// A file: its path and its length in bytes.
#[derive(Debug, PartialEq, Eq)]
pub struct StoredFile {
    pub path: String,
    pub size: u64,
}

/// A directory: its path and the paths of what it holds.
#[derive(Debug, PartialEq, Eq)]
pub struct StoredDirectory {
    pub path: String,
    pub listing: Vec<String>,
}

/// An archive: its path and its entries.
#[derive(Debug, PartialEq, Eq)]
pub struct StoredArchive {
    pub path: String,
    pub entries: Vec<ArchiveEntry>,
}

/// A change that was asked of the filesystem.
#[derive(Debug, PartialEq, Eq)]
pub enum Operation {
    Delete { path: String },
    Extract { path: String, size: u64 },
}

/// The operations that are made to fail: reading a size, removing a file,
/// unpacking an entry.
#[derive(Clone, Copy, Debug, PartialEq, Eq)]
pub struct Faults {
    pub size_of: bool,
    pub delete: bool,
    pub extract: bool,
}

/// A filesystem in memory. What was stored last under a path is what the
/// path holds.
pub struct MemoryFilesystem {
    files: Vec<StoredFile>,
    directories: Vec<StoredDirectory>,
    archives: Vec<StoredArchive>,
    log: Vec<Operation>,
    faults: Faults,
}

/// The files that a list of stored files makes: a later one replaces an
/// earlier one of the same path.
pub open spec fn file_map(files: Seq<StoredFile>) -> Map<Seq<char>, nat>
    decreases files.len(),
{
    if files.len() == 0 {
        Map::empty()
    } else {
        file_map(files.drop_last()).insert(files.last().path@, files.last().size as nat)
    }
}

/// The directories that a list of stored directories makes.
pub open spec fn directory_map(directories: Seq<StoredDirectory>) -> Map<
    Seq<char>,
    Seq<Seq<char>>,
>
    decreases directories.len(),
{
    if directories.len() == 0 {
        Map::empty()
    } else {
        directory_map(directories.drop_last()).insert(
            directories.last().path@,
            texts(directories.last().listing@),
        )
    }
}

/// The archives that a list of stored archives makes.
pub open spec fn archive_map(archives: Seq<StoredArchive>) -> Map<Seq<char>, Seq<ArchiveEntry>>
    decreases archives.len(),
{
    if archives.len() == 0 {
        Map::empty()
    } else {
        archive_map(archives.drop_last()).insert(archives.last().path@, archives.last().entries@)
    }
}

/// An operation as plain values.
pub open spec fn mutation_of(operation: Operation) -> Mutation {
    match operation {
        Operation::Delete { path } => Mutation::Delete { path: path@ },
        Operation::Extract { path, size } => Mutation::Extract { path: path@, size: size as nat },
    }
}

/// The log of operations as plain values.
pub open spec fn mutations_of(log: Seq<Operation>) -> Seq<Mutation> {
    Seq::new(log.len(), |i: int| mutation_of(log[i]))
}

fn copy_entries(entries: &Vec<ArchiveEntry>) -> (copy: Vec<ArchiveEntry>)
    ensures
        copy@ == entries@,
{
    let mut copy: Vec<ArchiveEntry> = Vec::new();
    let mut i: usize = 0;
    while i < entries.len()
        invariant
            i <= entries.len(),
            copy@ == entries@.take(i as int),
        decreases entries.len() - i,
    {
        let entry = &entries[i];
        copy.push(
            ArchiveEntry {
                is_directory: entry.is_directory,
                relative_name: entry.relative_name.clone(),
                uncompressed_size: entry.uncompressed_size,
            },
        );
        assert(entries@.take(i + 1) == entries@.take(i as int).push(entries@[i as int]));
        i += 1;
    }
    assert(entries@.take(i as int) == entries@);
    copy
}

fn copy_strings(strings: &Vec<String>) -> (copy: Vec<String>)
    ensures
        copy@ == strings@,
{
    let mut copy: Vec<String> = Vec::new();
    let mut i: usize = 0;
    while i < strings.len()
        invariant
            i <= strings.len(),
            copy@ == strings@.take(i as int),
        decreases strings.len() - i,
    {
        copy.push(strings[i].clone());
        assert(strings@.take(i + 1) == strings@.take(i as int).push(strings@[i as int]));
        i += 1;
    }
    assert(strings@.take(i as int) == strings@);
    copy
}

impl MemoryFilesystem {
    /// The operations that are made to fail.
    pub closed spec fn faults(&self) -> Faults {
        self.faults
    }

    /// A filesystem is reliable as long as no operation is made to fail.
    pub proof fn lemma_reliable(&self)
        ensures
            self.reliable() == (!self.faults().size_of && !self.faults().delete
                && !self.faults().extract),
    {
    }

    /// An empty filesystem in which nothing fails: it holds no file, no
    /// directory and no archive, nothing was asked of it, and no operation
    /// is made to fail.
    pub fn new() -> (fs: MemoryFilesystem)
        ensures
            fs.files() == Map::<Seq<char>, nat>::empty(),
            fs.mutations() == Seq::<Mutation>::empty(),
            fs.directories() == Set::<Seq<char>>::empty(),
            forall|p: Seq<char>| fs.listing(p) == Seq::<Seq<char>>::empty(),
            forall|p: Seq<char>| fs.archive(p) is None,
            fs.faults() == (Faults { size_of: false, delete: false, extract: false }),
            fs.reliable(),
    {
        let fs = MemoryFilesystem {
            files: Vec::new(),
            directories: Vec::new(),
            archives: Vec::new(),
            log: Vec::new(),
            faults: Faults { size_of: false, delete: false, extract: false },
        };
        assert(fs.directories() == Set::<Seq<char>>::empty());
        fs
    }

    /// Stores a file of the given size at the path, in place of what was
    /// there.
    pub fn add_file(&mut self, path: &str, size: u64)
        ensures
            final(self).files() == old(self).files().insert(path@, size as nat),
            final(self).mutations() == old(self).mutations(),
            final(self).directories() == old(self).directories(),
            forall|p: Seq<char>| final(self).listing(p) == old(self).listing(p),
            forall|p: Seq<char>| final(self).archive(p) == old(self).archive(p),
            final(self).reliable() == old(self).reliable(),
            final(self).faults() == old(self).faults(),
    {
        self.files.push(StoredFile { path: path.to_owned(), size });
        assert(self.files@.drop_last() == old(self).files@);
    }

    /// Makes the path a directory that holds the listed paths.
    pub fn add_directory(&mut self, path: &str, listing: Vec<String>)
        ensures
            final(self).directories() == old(self).directories().insert(path@),
            final(self).listing(path@) == texts(listing@),
            forall|p: Seq<char>| p != path@ ==> final(self).listing(p) == old(self).listing(p),
            forall|p: Seq<char>| final(self).archive(p) == old(self).archive(p),
            final(self).files() == old(self).files(),
            final(self).mutations() == old(self).mutations(),
            final(self).reliable() == old(self).reliable(),
            final(self).faults() == old(self).faults(),
    {
        self.directories.push(StoredDirectory { path: path.to_owned(), listing });
        assert(self.directories@.drop_last() == old(self).directories@);
        assert(self.directories() == old(self).directories().insert(path@));
    }

    /// Puts an archive with the given entries at the path.
    pub fn add_archive(&mut self, path: &str, entries: Vec<ArchiveEntry>)
        ensures
            final(self).archive(path@) == Some(entries@),
            forall|p: Seq<char>| p != path@ ==> final(self).archive(p) == old(self).archive(p),
            forall|p: Seq<char>| final(self).listing(p) == old(self).listing(p),
            final(self).directories() == old(self).directories(),
            final(self).files() == old(self).files(),
            final(self).mutations() == old(self).mutations(),
            final(self).reliable() == old(self).reliable(),
            final(self).faults() == old(self).faults(),
    {
        self.archives.push(StoredArchive { path: path.to_owned(), entries });
        assert(self.archives@.drop_last() == old(self).archives@);
    }

    /// Sets the operations that fail from now on. With any of them the
    /// filesystem is no longer reliable.
    pub fn set_faults(&mut self, faults: Faults)
        ensures
            final(self).faults() == faults,
            final(self).reliable() == (!faults.size_of && !faults.delete && !faults.extract),
            final(self).files() == old(self).files(),
            final(self).mutations() == old(self).mutations(),
            final(self).directories() == old(self).directories(),
            forall|p: Seq<char>| final(self).listing(p) == old(self).listing(p),
            forall|p: Seq<char>| final(self).archive(p) == old(self).archive(p),
    {
        self.faults = faults;
    }

    /// The size of the file at the path, if there is one.
    pub fn file_size(&self, path: &str) -> (size: Option<u64>)
        ensures
            existing_at(self.files(), path@) == match size {
                Some(found) => Some(found as nat),
                None => None::<nat>,
            },
    {
        let mut end: usize = self.files.len();
        assert(self.files@.take(end as int) == self.files@);
        while end > 0
            invariant
                end <= self.files.len(),
                existing_at(self.files(), path@) == existing_at(
                    file_map(self.files@.take(end as int)),
                    path@,
                ),
            decreases end,
        {
            let file = &self.files[end - 1];
            if same_text(file.path.as_str(), path) {
                return Some(file.size);
            }
            assert(self.files@.take(end as int).drop_last() == self.files@.take(end - 1));
            end -= 1;
        }
        None
    }

    /// The changes that were asked of the filesystem, oldest first.
    pub fn operations(&self) -> (log: &Vec<Operation>)
        ensures
            mutations_of(log@) == self.mutations(),
    {
        &self.log
    }
}

impl FilesystemPort for MemoryFilesystem {
    closed spec fn reliable(&self) -> bool {
        !self.faults.size_of && !self.faults.delete && !self.faults.extract
    }

    closed spec fn files(&self) -> Map<Seq<char>, nat> {
        file_map(self.files@)
    }

    closed spec fn mutations(&self) -> Seq<Mutation> {
        mutations_of(self.log@)
    }

    closed spec fn directories(&self) -> Set<Seq<char>> {
        directory_map(self.directories@).dom()
    }

    closed spec fn listing(&self, directory: Seq<char>) -> Seq<Seq<char>> {
        if directory_map(self.directories@).contains_key(directory) {
            directory_map(self.directories@)[directory]
        } else {
            Seq::empty()
        }
    }

    closed spec fn archive(&self, path: Seq<char>) -> Option<Seq<ArchiveEntry>> {
        if archive_map(self.archives@).contains_key(path) {
            Some(archive_map(self.archives@)[path])
        } else {
            None
        }
    }

    fn path_exists(&self, path: &str) -> (found: bool) {
        self.file_size(path).is_some()
    }

    /// Fails where nothing is at the path, or where reading sizes is made
    /// to fail.
    fn size_of(&self, path: &str) -> (r: Result<u64, IoError>)
        ensures
            r is Ok <==> self.files().contains_key(path@) && !self.faults().size_of,
    {
        if self.faults.size_of {
            return Err(IoError { message: "the size cannot be read".to_owned() });
        }
        match self.file_size(path) {
            Some(size) => Ok(size),
            None => Err(IoError { message: "no such file".to_owned() }),
        }
    }

    /// Fails where removals are made to fail, and only there.
    fn delete(&mut self, path: &str) -> (r: Result<(), IoError>)
        ensures
            r is Ok <==> !old(self).faults().delete,
            final(self).faults() == old(self).faults(),
    {
        self.log.push(Operation::Delete { path: path.to_owned() });
        assert(mutations_of(self.log@) == mutations_of(old(self).log@).push(
            Mutation::Delete { path: path@ },
        ));
        if self.faults.delete {
            return Err(IoError { message: "the file cannot be removed".to_owned() });
        }
        let mut kept: Vec<StoredFile> = Vec::new();
        let mut i: usize = 0;
        while i < self.files.len()
            invariant
                i <= self.files.len(),
                file_map(kept@) == file_map(self.files@.take(i as int)).remove(path@),
            decreases self.files.len() - i,
        {
            let file = &self.files[i];
            assert(self.files@.take(i + 1).drop_last() == self.files@.take(i as int));
            if !same_text(file.path.as_str(), path) {
                let ghost earlier = kept@;
                kept.push(StoredFile { path: file.path.clone(), size: file.size });
                assert(kept@.drop_last() == earlier);
                assert(file_map(kept@) == file_map(self.files@.take(i + 1)).remove(path@));
            } else {
                assert(file_map(kept@) == file_map(self.files@.take(i + 1)).remove(path@));
            }
            i += 1;
        }
        assert(self.files@.take(i as int) == self.files@);
        self.files = kept;
        Ok(())
    }

    /// Fails where unpacking is made to fail, and only there; a failed
    /// unpacking leaves every file as it was.
    fn extract_entry_to(&mut self, entry: &ArchiveEntry, path: &str) -> (r: Result<
        (),
        ExtractError,
    >)
        ensures
            r is Ok <==> !old(self).faults().extract,
            r is Err ==> final(self).files() == old(self).files(),
            final(self).faults() == old(self).faults(),
    {
        self.log.push(Operation::Extract { path: path.to_owned(), size: entry.uncompressed_size });
        assert(mutations_of(self.log@) == mutations_of(old(self).log@).push(
            Mutation::Extract { path: path@, size: entry.uncompressed_size as nat },
        ));
        if self.faults.extract {
            return Err(ExtractError { message: "the entry cannot be unpacked".to_owned() });
        }
        self.files.push(StoredFile { path: path.to_owned(), size: entry.uncompressed_size });
        assert(self.files@.drop_last() == old(self).files@);
        Ok(())
    }

    fn is_directory(&self, path: &str) -> (found: bool) {
        let mut end: usize = self.directories.len();
        assert(self.directories@.take(end as int) == self.directories@);
        while end > 0
            invariant
                end <= self.directories.len(),
                self.directories().contains(path@) == directory_map(
                    self.directories@.take(end as int),
                ).contains_key(path@),
            decreases end,
        {
            if same_text(self.directories[end - 1].path.as_str(), path) {
                return true;
            }
            assert(self.directories@.take(end as int).drop_last() == self.directories@.take(
                end - 1,
            ));
            end -= 1;
        }
        false
    }

    /// Fails where the path is no directory, and only there.
    fn list_directory(&self, path: &str) -> (r: Result<Vec<String>, IoError>)
        ensures
            r is Ok <==> self.directories().contains(path@),
    {
        let mut end: usize = self.directories.len();
        assert(self.directories@.take(end as int) == self.directories@);
        while end > 0
            invariant
                end <= self.directories.len(),
                self.directories().contains(path@) == directory_map(
                    self.directories@.take(end as int),
                ).contains_key(path@),
                self.directories().contains(path@) ==> self.listing(path@) == directory_map(
                    self.directories@.take(end as int),
                )[path@],
            decreases end,
        {
            let directory = &self.directories[end - 1];
            if same_text(directory.path.as_str(), path) {
                let paths = copy_strings(&directory.listing);
                return Ok(paths);
            }
            assert(self.directories@.take(end as int).drop_last() == self.directories@.take(
                end - 1,
            ));
            end -= 1;
        }
        Err(IoError { message: "no such directory".to_owned() })
    }

    /// Fails where no archive is at the path, and only there.
    fn open_archive(&mut self, path: &str) -> (r: Result<Vec<ArchiveEntry>, ExtractError>)
        ensures
            r is Ok <==> old(self).archive(path@) is Some,
            *final(self) == *old(self),
    {
        let mut end: usize = self.archives.len();
        assert(self.archives@.take(end as int) == self.archives@);
        while end > 0
            invariant
                end <= self.archives.len(),
                *self == *old(self),
                archive_map(self.archives@).contains_key(path@) == archive_map(
                    self.archives@.take(end as int),
                ).contains_key(path@),
                archive_map(self.archives@).contains_key(path@) ==> self.archive(path@) == Some(
                    archive_map(self.archives@.take(end as int))[path@],
                ),
            decreases end,
        {
            let stored = &self.archives[end - 1];
            if same_text(stored.path.as_str(), path) {
                let entries = copy_entries(&stored.entries);
                return Ok(entries);
            }
            assert(self.archives@.take(end as int).drop_last() == self.archives@.take(end - 1));
            end -= 1;
        }
        Err(ExtractError { message: "no such archive".to_owned() })
    }
}

} // verus!
