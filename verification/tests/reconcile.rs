use dessert::archive::{
    decide, find_payload, reconcile, reconcile_payload, ArchiveEntry, ReconciliationError,
    ReconciliationOutcome, ReplaceReason, SkipReason, Step,
};
use dessert::memory::{Faults, MemoryFilesystem, Operation};

fn file(name: &str, size: u64) -> ArchiveEntry {
    ArchiveEntry { is_directory: false, relative_name: name.to_string(), uncompressed_size: size }
}

fn directory(name: &str) -> ArchiveEntry {
    ArchiveEntry { is_directory: true, relative_name: name.to_string(), uncompressed_size: 0 }
}

fn delete(path: &str) -> Operation {
    Operation::Delete { path: path.to_string() }
}

fn extract(path: &str, size: u64) -> Operation {
    Operation::Extract { path: path.to_string(), size }
}

const SKIPPED: ReconciliationOutcome = ReconciliationOutcome::Skipped(SkipReason::SizeMatches);
const REPLACED: ReconciliationOutcome = ReconciliationOutcome::Replaced(ReplaceReason::SizeMismatch);

#[test]
fn payload_is_extracted_where_nothing_is_there() {
    let mut fs = MemoryFilesystem::new();
    let entries = vec![file("release/video.mkv", 200)];
    let outcome = reconcile(&entries, "The Show - S01E02", "/d", &mut fs);
    assert_eq!(outcome, Ok(ReconciliationOutcome::Extracted));
    assert_eq!(fs.file_size("/d/The Show - S01E02.mkv"), Some(200));
    assert_eq!(fs.operations(), &vec![extract("/d/The Show - S01E02.mkv", 200)]);
}

#[test]
fn second_run_skips_and_changes_nothing() {
    let mut fs = MemoryFilesystem::new();
    let entries = vec![directory("release"), file("release/video.mkv", 200)];
    assert_eq!(reconcile(&entries, "Name", "/d", &mut fs), Ok(ReconciliationOutcome::Extracted));
    let operations_after_first = fs.operations().len();
    assert_eq!(reconcile(&entries, "Name", "/d", &mut fs), Ok(SKIPPED));
    assert_eq!(fs.operations().len(), operations_after_first);
    assert_eq!(fs.file_size("/d/Name.mkv"), Some(200));
}

#[test]
fn size_mismatch_replaces_the_file() {
    let mut fs = MemoryFilesystem::new();
    fs.add_file("/d/Name.mkv", 100);
    let entries = vec![file("video.mkv", 200)];
    assert_eq!(reconcile(&entries, "Name", "/d", &mut fs), Ok(REPLACED));
    assert_eq!(fs.file_size("/d/Name.mkv"), Some(200));
    assert_eq!(fs.operations(), &vec![delete("/d/Name.mkv"), extract("/d/Name.mkv", 200)]);
}

#[test]
fn equal_size_leaves_the_file_alone() {
    let mut fs = MemoryFilesystem::new();
    fs.add_file("/d/Name.mkv", 200);
    let entries = vec![file("video.mkv", 200)];
    assert_eq!(reconcile(&entries, "Name", "/d", &mut fs), Ok(SKIPPED));
    assert!(fs.operations().is_empty());
    assert_eq!(fs.file_size("/d/Name.mkv"), Some(200));
}

#[test]
fn directories_ahead_of_the_payload_are_passed_over() {
    let mut with = MemoryFilesystem::new();
    let mut without = MemoryFilesystem::new();
    let entries = vec![directory("a"), directory("a/b"), file("a/b/video.avi", 5)];
    let bare = vec![file("a/b/video.avi", 5)];
    assert_eq!(
        reconcile(&entries, "Name", "/d", &mut with),
        reconcile(&bare, "Name", "/d", &mut without)
    );
    assert_eq!(with.operations(), without.operations());
    assert_eq!(with.operations(), &vec![extract("/d/Name.avi", 5)]);
}

#[test]
fn archive_of_directories_has_no_payload() {
    let mut fs = MemoryFilesystem::new();
    let entries = vec![directory("a"), directory("b")];
    assert_eq!(
        reconcile(&entries, "Name", "/d", &mut fs),
        Err(ReconciliationError::NoPayloadEntry)
    );
    assert_eq!(
        reconcile(&Vec::new(), "Name", "/d", &mut fs),
        Err(ReconciliationError::NoPayloadEntry)
    );
    assert!(fs.operations().is_empty());
}

#[test]
fn payload_without_extension_is_refused_before_any_change() {
    let mut fs = MemoryFilesystem::new();
    fs.add_file("/d/Name", 1);
    let entries = vec![directory("a"), file("a/video", 5), file("a/video.mkv", 5)];
    assert_eq!(reconcile(&entries, "Name", "/d", &mut fs), Err(ReconciliationError::NoExtension));
    assert!(fs.operations().is_empty());
    assert_eq!(fs.file_size("/d/Name"), Some(1));
    assert_eq!(fs.file_size("/d/Name.mkv"), None);
}

#[test]
fn only_the_first_payload_is_processed() {
    let mut fs = MemoryFilesystem::new();
    let entries = vec![file("video.mkv", 5), file("sample.avi", 1), file("notes", 1)];
    assert_eq!(reconcile(&entries, "Name", "/d", &mut fs), Ok(ReconciliationOutcome::Extracted));
    assert_eq!(fs.operations(), &vec![extract("/d/Name.mkv", 5)]);
    assert_eq!(fs.file_size("/d/Name.avi"), None);
}

#[test]
fn unreadable_size_is_an_io_failure() {
    let mut fs = MemoryFilesystem::new();
    fs.add_file("/d/Name.mkv", 100);
    fs.set_faults(Faults { size_of: true, delete: false, extract: false });
    let entries = vec![file("video.mkv", 200)];
    match reconcile(&entries, "Name", "/d", &mut fs) {
        Err(ReconciliationError::IoFailure(context)) => {
            assert_eq!(context.step, Step::ReadSize);
            assert_eq!(context.path, "/d/Name.mkv");
        }
        other => panic!("{:?}", other),
    }
    assert!(fs.operations().is_empty());
    assert_eq!(fs.file_size("/d/Name.mkv"), Some(100));
}

#[test]
fn failed_removal_is_an_io_failure() {
    let mut fs = MemoryFilesystem::new();
    fs.add_file("/d/Name.mkv", 100);
    fs.set_faults(Faults { size_of: false, delete: true, extract: false });
    let entries = vec![file("video.mkv", 200)];
    match reconcile(&entries, "Name", "/d", &mut fs) {
        Err(ReconciliationError::IoFailure(context)) => {
            assert_eq!(context.step, Step::Delete);
            assert_eq!(context.path, "/d/Name.mkv");
        }
        other => panic!("{:?}", other),
    }
    assert_eq!(fs.operations(), &vec![delete("/d/Name.mkv")]);
    assert_eq!(fs.file_size("/d/Name.mkv"), Some(100));
}

#[test]
fn failed_unpacking_is_an_extract_failure() {
    let mut fs = MemoryFilesystem::new();
    fs.add_file("/d/Name.mkv", 100);
    fs.add_file("/d/Other.mkv", 7);
    fs.set_faults(Faults { size_of: false, delete: false, extract: true });
    let entries = vec![file("video.mkv", 200)];
    match reconcile(&entries, "Name", "/d", &mut fs) {
        Err(ReconciliationError::ExtractFailure(context)) => {
            assert_eq!(context.step, Step::Extract);
            assert_eq!(context.path, "/d/Name.mkv");
        }
        other => panic!("{:?}", other),
    }
    assert_eq!(fs.operations(), &vec![delete("/d/Name.mkv"), extract("/d/Name.mkv", 200)]);
    assert_eq!(fs.file_size("/d/Name.mkv"), None);
    assert_eq!(fs.file_size("/d/Other.mkv"), Some(7));
}

#[test]
fn decision_goes_by_the_size_alone() {
    assert_eq!(decide(200, None), ReconciliationOutcome::Extracted);
    assert_eq!(decide(200, Some(200)), SKIPPED);
    assert_eq!(decide(200, Some(100)), REPLACED);
    assert_eq!(decide(0, Some(0)), SKIPPED);
    assert_eq!(decide(0, Some(u64::MAX)), REPLACED);
}

#[test]
fn payload_is_the_first_entry_that_is_no_directory() {
    assert_eq!(find_payload(&vec![directory("a"), file("b", 1), file("c", 1)]), Some(1));
    assert_eq!(find_payload(&vec![file("b", 1)]), Some(0));
    assert_eq!(find_payload(&vec![directory("a")]), None);
    assert_eq!(find_payload(&Vec::new()), None);
}

#[test]
fn one_payload_is_reconciled_with_its_destination() {
    let mut fs = MemoryFilesystem::new();
    let entry = file("x.mkv", 9);
    assert_eq!(
        reconcile_payload(&entry, "/d/x.mkv".to_string(), &mut fs),
        Ok(ReconciliationOutcome::Extracted)
    );
    assert_eq!(reconcile_payload(&entry, "/d/x.mkv".to_string(), &mut fs), Ok(SKIPPED));
    let larger = file("x.mkv", 10);
    assert_eq!(reconcile_payload(&larger, "/d/x.mkv".to_string(), &mut fs), Ok(REPLACED));
    assert_eq!(fs.file_size("/d/x.mkv"), Some(10));
}

#[test]
fn outcomes_come_with_their_reasons() {
    assert_eq!(ReconciliationOutcome::Extracted.reason(), None);
    assert_eq!(SKIPPED.reason(), Some("already extracted, size matches"));
    assert_eq!(REPLACED.reason(), Some("size mismatch"));
}
