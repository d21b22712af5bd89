use ps2_redump_downloader::extract::{
    total_size, ArchiveEntry, ExtractAction, ExtractError, ExtractEvent, ExtractPhase,
    ExtractProgress, Extraction,
};
use std::collections::{BTreeMap, BTreeSet};
use std::io::{Cursor, Read, Write};
use zip::write::SimpleFileOptions;
use zip::{ZipArchive, ZipWriter};

/// A staging file and a file system, both in memory.
struct Disk {
    staging: Vec<u8>,
    directories: BTreeSet<String>,
    files: BTreeMap<String, Vec<u8>>,
    opened: usize,
    fail_at: Option<usize>,
    trace: Vec<ExtractAction>,
}

impl Disk {
    fn new(staging: Vec<u8>) -> Disk {
        Disk {
            staging,
            directories: BTreeSet::new(),
            files: BTreeMap::new(),
            opened: 0,
            fail_at: None,
            trace: Vec::new(),
        }
    }

    fn make_directories(&mut self, path: &str) {
        let mut so_far = String::new();
        for part in path.split('/').filter(|part| !part.is_empty()) {
            if !so_far.is_empty() {
                so_far.push('/');
            }
            so_far.push_str(part);
            self.directories.insert(so_far.clone());
        }
    }

    fn list(&mut self) -> Option<Vec<ArchiveEntry>> {
        self.opened += 1;
        let mut archive = ZipArchive::new(Cursor::new(self.staging.clone())).ok()?;
        let mut entries = Vec::new();
        for i in 0..archive.len() {
            let file = archive.by_index(i).ok()?;
            entries.push(ArchiveEntry::new(file.name().to_string(), file.size()));
        }
        Some(entries)
    }

    fn contents(&self, index: usize) -> Vec<u8> {
        let mut archive = ZipArchive::new(Cursor::new(self.staging.clone())).unwrap();
        let mut file = archive.by_index(index).unwrap();
        let mut contents = Vec::new();
        file.read_to_end(&mut contents).unwrap();
        contents
    }

    fn run(&mut self, mut state: Extraction) -> Extraction {
        for _ in 0..1000 {
            let action = state.awaited();
            self.trace.push(state.awaited());
            match action {
                ExtractAction::MeasureStaging => {
                    let length = self.staging.len() as u64;
                    state = state.step(ExtractEvent::StagingLength { length });
                }
                ExtractAction::OpenArchive => {
                    state = match self.list() {
                        Some(entries) => state.step(ExtractEvent::ArchiveOpened { entries }),
                        None => state.step(ExtractEvent::ArchiveRejected),
                    };
                }
                ExtractAction::MakeDirectory { path } => {
                    self.make_directories(&path);
                    state = state.step(ExtractEvent::EntryDone);
                }
                ExtractAction::WriteFile { index, path } => {
                    if self.fail_at == Some(index) {
                        state = state.step(ExtractEvent::IoFailed);
                        continue;
                    }
                    if let Some(at) = path.rfind('/') {
                        let parent = path[..at].to_string();
                        self.make_directories(&parent);
                    }
                    let contents = self.contents(index);
                    self.files.insert(path.clone(), Vec::new());
                    for chunk in contents.chunks(5) {
                        self.files.get_mut(&path).unwrap().extend_from_slice(chunk);
                        state = state.step(ExtractEvent::ChunkCopied { length: chunk.len() as u64 });
                    }
                    state = state.step(ExtractEvent::EntryDone);
                }
                ExtractAction::Finish | ExtractAction::Fail { .. } => return state,
            }
        }
        panic!("the extraction does not come to an end");
    }
}

fn archive(entries: &[(&str, Option<&[u8]>)]) -> Vec<u8> {
    let mut writer = ZipWriter::new(Cursor::new(Vec::new()));
    for (name, contents) in entries {
        match contents {
            Some(bytes) => {
                writer.start_file(*name, SimpleFileOptions::default()).unwrap();
                writer.write_all(bytes).unwrap();
            }
            None => {
                writer.add_directory(*name, SimpleFileOptions::default()).unwrap();
            }
        }
    }
    writer.finish().unwrap().into_inner()
}

fn entry(name: &str, size: u64) -> ArchiveEntry {
    ArchiveEntry::new(name.to_string(), size)
}

fn opened(destination: &str, entries: Vec<ArchiveEntry>) -> Extraction {
    Extraction::begin(destination.to_string())
        .step(ExtractEvent::StagingLength { length: 1 })
        .step(ExtractEvent::ArchiveOpened { entries })
}

#[test]
fn an_archive_is_unpacked_entry_by_entry() {
    let payload: Vec<u8> = (1..=17).collect();
    let mut disk = Disk::new(archive(&[("a/", None), ("a/file.bin", Some(&payload))]));
    let end = disk.run(Extraction::begin("dest".to_string()));
    assert_eq!(end.phase, ExtractPhase::Complete);
    assert_eq!(disk.files.len(), 1);
    assert_eq!(disk.files.get("dest/a/file.bin"), Some(&payload));
    assert_eq!(disk.files["dest/a/file.bin"].len(), 17);
    assert!(disk.directories.contains("dest/a"));
    assert_eq!(
        disk.trace,
        vec![
            ExtractAction::MeasureStaging,
            ExtractAction::OpenArchive,
            ExtractAction::MakeDirectory { path: "dest/a/".to_string() },
            ExtractAction::WriteFile { index: 1, path: "dest/a/file.bin".to_string() },
            ExtractAction::Finish,
        ]
    );
    assert_eq!(end.progress(), ExtractProgress { copied: 17, total: Some(17), entries_done: 2 });
}

#[test]
fn an_empty_staging_file_is_turned_away_unopened() {
    let mut disk = Disk::new(Vec::new());
    let end = disk.run(Extraction::begin("dest".to_string()));
    assert_eq!(end.phase, ExtractPhase::Failed { error: ExtractError::EmptyArchive });
    assert_eq!(disk.opened, 0);
    assert_eq!(
        disk.trace,
        vec![ExtractAction::MeasureStaging, ExtractAction::Fail { error: ExtractError::EmptyArchive }]
    );
    assert!(disk.files.is_empty());
}

#[test]
fn a_staging_file_that_is_no_archive_is_corrupt() {
    let mut disk = Disk::new(b"this is not an archive".to_vec());
    let end = disk.run(Extraction::begin("dest".to_string()));
    assert_eq!(end.phase, ExtractPhase::Failed { error: ExtractError::CorruptArchive });
    assert_eq!(disk.opened, 1);
    assert!(disk.files.is_empty());
}

#[test]
fn a_truncated_archive_is_corrupt() {
    let whole = archive(&[("game.iso", Some(&[7u8; 300]))]);
    let mut disk = Disk::new(whole[..whole.len() / 2].to_vec());
    let end = disk.run(Extraction::begin("dest".to_string()));
    assert_eq!(end.phase, ExtractPhase::Failed { error: ExtractError::CorruptArchive });
}

#[test]
fn a_failure_in_the_middle_aborts_and_keeps_what_was_written() {
    let mut disk = Disk::new(archive(&[
        ("one.bin", Some(&[1u8; 8])),
        ("two.bin", Some(&[2u8; 8])),
        ("three.bin", Some(&[3u8; 8])),
    ]));
    disk.fail_at = Some(1);
    let end = disk.run(Extraction::begin("out".to_string()));
    assert_eq!(end.phase, ExtractPhase::Failed { error: ExtractError::Io });
    assert_eq!(end.next, 1);
    assert_eq!(disk.files.keys().cloned().collect::<Vec<_>>(), vec!["out/one.bin".to_string()]);
    assert_eq!(disk.trace.last(), Some(&ExtractAction::Fail { error: ExtractError::Io }));
}

#[test]
fn output_files_are_overwritten() {
    let mut disk = Disk::new(archive(&[("game.iso", Some(b"fresh"))]));
    disk.files.insert("dest/game.iso".to_string(), b"stale and longer".to_vec());
    let end = disk.run(Extraction::begin("dest".to_string()));
    assert_eq!(end.phase, ExtractPhase::Complete);
    assert_eq!(disk.files["dest/game.iso"], b"fresh".to_vec());
}

#[test]
fn an_archive_without_entries_is_complete_at_once() {
    let mut disk = Disk::new(archive(&[]));
    let end = disk.run(Extraction::begin("dest".to_string()));
    assert_eq!(end.phase, ExtractPhase::Complete);
    assert_eq!(end.progress(), ExtractProgress { copied: 0, total: None, entries_done: 0 });
}

#[test]
fn entries_are_directories_by_their_names() {
    assert!(entry("a/", 0).is_dir);
    assert!(entry("a/b/", 0).is_dir);
    assert!(entry("/", 0).is_dir);
    assert!(!entry("a", 0).is_dir);
    assert!(!entry("a/b", 3).is_dir);
    assert!(!entry("", 0).is_dir);
    assert!(!entry("a\\", 0).is_dir);
    let made = entry("disc/game.iso", 42);
    assert_eq!(made.name, "disc/game.iso");
    assert_eq!(made.size, 42);
}

#[test]
fn the_total_is_the_sum_of_the_declared_sizes() {
    assert_eq!(total_size(&vec![]), 0);
    assert_eq!(total_size(&vec![entry("a/", 0), entry("a/x", 17), entry("y", 25)]), 42);
    assert_eq!(total_size(&vec![entry("x", u64::MAX), entry("y", 1)]), u64::MAX);
    assert_eq!(total_size(&vec![entry("x", u64::MAX - 1), entry("y", 1), entry("z", 9)]), u64::MAX);
}

#[test]
fn progress_has_no_total_when_nothing_is_declared() {
    let state = opened("dest", vec![entry("a/", 0), entry("b/", 0)]);
    assert_eq!(state.progress(), ExtractProgress { copied: 0, total: None, entries_done: 0 });
    let known = opened("dest", vec![entry("a/", 0), entry("a/x", 64)]);
    assert_eq!(known.progress().total, Some(64));
}

#[test]
fn progress_advances_with_every_chunk() {
    let state = opened("dest", vec![entry("x", 10), entry("y", 10)]);
    let one = state.step(ExtractEvent::ChunkCopied { length: 4 });
    assert_eq!(one.progress(), ExtractProgress { copied: 4, total: Some(20), entries_done: 0 });
    let two = one.step(ExtractEvent::ChunkCopied { length: 6 }).step(ExtractEvent::EntryDone);
    assert_eq!(two.progress(), ExtractProgress { copied: 10, total: Some(20), entries_done: 1 });
    let capped = two.step(ExtractEvent::ChunkCopied { length: u64::MAX });
    assert_eq!(capped.copied, u64::MAX);
}

#[test]
fn outputs_are_named_from_inside_the_destination() {
    let state = opened("/data/iso/", vec![entry("sub/game.iso", 1), entry("/abs.bin", 1)]);
    assert_eq!(
        state.awaited(),
        ExtractAction::WriteFile { index: 0, path: "/data/iso/sub/game.iso".to_string() }
    );
    let next = state.step(ExtractEvent::EntryDone);
    assert_eq!(next.awaited(), ExtractAction::WriteFile { index: 1, path: "/abs.bin".to_string() });
    assert_eq!(next.step(ExtractEvent::EntryDone).awaited(), ExtractAction::Finish);
}

#[test]
fn an_extraction_ignores_what_it_does_not_wait_for() {
    let begun = Extraction::begin("dest".to_string());
    let same = begun.step(ExtractEvent::EntryDone);
    assert_eq!(same.phase, ExtractPhase::Measuring);
    let still = same.step(ExtractEvent::ArchiveOpened { entries: vec![entry("x", 1)] });
    assert_eq!(still.phase, ExtractPhase::Measuring);
    assert!(still.entries.is_empty());
    let failed = still.step(ExtractEvent::StagingLength { length: 0 });
    let after = failed.step(ExtractEvent::StagingLength { length: 9 });
    assert_eq!(after.phase, ExtractPhase::Failed { error: ExtractError::EmptyArchive });
    assert_eq!(after.step(ExtractEvent::IoFailed).awaited(), ExtractAction::Fail {
        error: ExtractError::EmptyArchive
    });
}
