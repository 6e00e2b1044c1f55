use dessert::archive::{ArchiveEntry, FilesystemPort, ReconciliationError, Step};
use dessert::memory::{MemoryFilesystem, Operation};
use dessert::naming::{ClassificationError, NamingError};
use dessert::pipeline::{
    extract_rar_file, find_rar_file, first_rar, run, verify_paths, LocateError, PathError,
    RunError,
};

fn strings(texts: &[&str]) -> Vec<String> {
    texts.iter().map(|t| t.to_string()).collect()
}

fn file(name: &str, size: u64) -> ArchiveEntry {
    ArchiveEntry { is_directory: false, relative_name: name.to_string(), uncompressed_size: size }
}

fn directory(name: &str) -> ArchiveEntry {
    ArchiveEntry { is_directory: true, relative_name: name.to_string(), uncompressed_size: 0 }
}

fn downloads() -> MemoryFilesystem {
    let mut fs = MemoryFilesystem::new();
    fs.add_directory("/in", strings(&["/in/readme.txt", "/in/the.show.s01e02.rar", "/in/b.rar"]));
    fs.add_directory("/out", Vec::new());
    fs.add_archive(
        "/in/the.show.s01e02.rar",
        vec![directory("the.show"), file("the.show/episode.mkv", 700)],
    );
    fs
}

#[test]
fn both_paths_must_be_directories() {
    let fs = downloads();
    assert_eq!(verify_paths("/in", "/out", &fs), Ok(()));
    assert_eq!(verify_paths("/nowhere", "/out", &fs), Err(PathError::SourceNotDirectory));
    assert_eq!(verify_paths("/in", "/nowhere", &fs), Err(PathError::DestinationNotDirectory));
    assert_eq!(verify_paths("/a", "/b", &fs), Err(PathError::SourceNotDirectory));
}

#[test]
fn first_rar_file_of_the_listing_is_found() {
    let fs = downloads();
    assert_eq!(find_rar_file("/in", &fs), Ok("/in/the.show.s01e02.rar".to_string()));
    assert_eq!(first_rar(&strings(&["a.txt", "b.RAR", "c.rar.part", "d.rar", "e.rar"])), Some(3));
    assert_eq!(first_rar(&strings(&["rar", ".rar", "x/rar"])), None);
    assert_eq!(first_rar(&Vec::new()), None);
}

#[test]
fn directory_without_archive_or_unreadable_is_reported() {
    let fs = downloads();
    assert_eq!(find_rar_file("/out", &fs), Err(LocateError::NotFound));
    match find_rar_file("/nowhere", &fs) {
        Err(LocateError::Unreadable(_)) => {}
        other => panic!("{:?}", other),
    }
}

#[test]
fn run_names_and_extracts_the_payload() {
    let mut fs = downloads();
    assert_eq!(run("/in", "/out", &mut fs), Ok("The Show - S01E02".to_string()));
    assert_eq!(fs.file_size("/out/The Show - S01E02.mkv"), Some(700));
    assert_eq!(
        fs.operations(),
        &vec![Operation::Extract { path: "/out/The Show - S01E02.mkv".to_string(), size: 700 }]
    );
}

#[test]
fn run_twice_extracts_once() {
    let mut fs = downloads();
    assert_eq!(run("/in", "/out", &mut fs), Ok("The Show - S01E02".to_string()));
    assert_eq!(run("/in", "/out", &mut fs), Ok("The Show - S01E02".to_string()));
    assert_eq!(fs.operations().len(), 1);
}

#[test]
fn run_stops_at_the_first_failure() {
    let mut fs = downloads();
    assert_eq!(
        run("/nowhere", "/out", &mut fs),
        Err(RunError::Paths(PathError::SourceNotDirectory))
    );
    assert_eq!(
        run("/in", "/nowhere", &mut fs),
        Err(RunError::Paths(PathError::DestinationNotDirectory))
    );
    assert_eq!(run("/out", "/in", &mut fs), Err(RunError::Locate(LocateError::NotFound)));
    assert!(fs.operations().is_empty());
}

#[test]
fn run_refuses_an_archive_it_cannot_name() {
    let mut fs = MemoryFilesystem::new();
    fs.add_directory("/in", strings(&["/in/backup.rar"]));
    fs.add_directory("/out", Vec::new());
    fs.add_archive("/in/backup.rar", vec![file("backup.bin", 1)]);
    assert_eq!(
        run("/in", "/out", &mut fs),
        Err(RunError::Naming(NamingError::Unclassified(ClassificationError::NoPatternMatch)))
    );
    assert!(fs.operations().is_empty());
}

#[test]
fn run_reports_what_the_reconciliation_reports() {
    let mut fs = MemoryFilesystem::new();
    fs.add_directory("/in", strings(&["/in/some.movie.2015.rar"]));
    fs.add_directory("/out", Vec::new());
    fs.add_archive("/in/some.movie.2015.rar", vec![directory("some.movie")]);
    assert_eq!(
        run("/in", "/out", &mut fs),
        Err(RunError::Reconciliation(ReconciliationError::NoPayloadEntry))
    );
    fs.add_archive("/in/some.movie.2015.rar", vec![file("movie", 3)]);
    assert_eq!(
        run("/in", "/out", &mut fs),
        Err(RunError::Reconciliation(ReconciliationError::NoExtension))
    );
    fs.add_archive("/in/some.movie.2015.rar", vec![file("movie.mp4", 3)]);
    assert_eq!(run("/in", "/out", &mut fs), Ok("Some Movie (2015)".to_string()));
    assert_eq!(fs.file_size("/out/Some Movie (2015).mp4"), Some(3));
}

#[test]
fn archive_that_cannot_be_opened_is_an_extract_failure() {
    let mut fs = downloads();
    match extract_rar_file("/in/b.rar", "/out", "Name", &mut fs) {
        Err(ReconciliationError::ExtractFailure(context)) => {
            assert_eq!(context.step, Step::Open);
            assert_eq!(context.path, "/in/b.rar");
        }
        other => panic!("{:?}", other),
    }
    assert!(fs.operations().is_empty());
}

#[test]
fn memory_filesystem_answers_for_what_it_holds() {
    let mut fs = downloads();
    assert!(fs.is_directory("/in"));
    assert!(!fs.is_directory("/in/readme.txt"));
    assert!(!fs.path_exists("/out/x"));
    fs.add_file("/out/x", 4);
    fs.add_file("/out/x", 5);
    assert!(fs.path_exists("/out/x"));
    assert_eq!(fs.size_of("/out/x").ok(), Some(5));
    assert!(fs.size_of("/out/y").is_err());
    assert!(fs.delete("/out/x").is_ok());
    assert!(!fs.path_exists("/out/x"));
    assert_eq!(fs.list_directory("/out").ok(), Some(Vec::new()));
    assert_eq!(
        fs.open_archive("/in/the.show.s01e02.rar").ok().map(|entries| entries.len()),
        Some(2)
    );
}

#[test]
fn new_memory_filesystem_holds_nothing_and_fails_nowhere() {
    let mut fs = MemoryFilesystem::new();
    assert!(fs.operations().is_empty());
    assert_eq!(fs.file_size("/out/x"), None);
    assert!(!fs.path_exists("/out/x"));
    assert!(!fs.is_directory("/out"));
    assert!(fs.list_directory("/out").is_err());
    assert!(fs.open_archive("/in/a.rar").is_err());
    fs.add_file("/out/x", 1);
    assert_eq!(fs.size_of("/out/x").ok(), Some(1));
    assert!(fs.delete("/out/x").is_ok());
    let entry = ArchiveEntry {
        is_directory: false,
        relative_name: "x.mkv".to_string(),
        uncompressed_size: 2,
    };
    assert!(fs.extract_entry_to(&entry, "/out/x.mkv").is_ok());
    assert_eq!(fs.file_size("/out/x.mkv"), Some(2));
}
