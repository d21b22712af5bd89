//! The extraction of a staging file: it is checked, opened as an archive, and its entries
//! are unpacked one after the other into the destination.

use crate::text::{ends_in, join_path, joined, SEPARATOR};
use vstd::prelude::*;

verus! {

/// Why an extraction was given up.
#[derive(Clone, Copy, Debug, PartialEq, Eq)]
pub enum ExtractError {
    /// The staging file holds no byte at all.
    EmptyArchive,
    /// The staging file is no well-formed archive.
    CorruptArchive,
    /// The staging file could not be read, or an output could not be made or written.
    Io,
}

/// One record of an archive: a file or a directory.
#[derive(Debug, PartialEq, Eq)]
pub struct ArchiveEntry {
    /// The name of the entry, a path relative to the archive's root.
    pub name: String,
    /// The length of the entry's contents once unpacked, as the archive declares it.
    pub size: u64,
    /// Whether the entry is a directory.
    pub is_dir: bool,
}

/// An entry with its name taken as a sequence of characters.
pub struct EntryModel {
    pub name: Seq<char>,
    pub size: u64,
    pub is_dir: bool,
}

impl View for ArchiveEntry {
    type V = EntryModel;

    open spec fn view(&self) -> EntryModel {
        EntryModel { name: self.name@, size: self.size, is_dir: self.is_dir }
    }
}

/// The views of a list of entries.
pub open spec fn entry_views(entries: Seq<ArchiveEntry>) -> Seq<EntryModel> {
    Seq::new(entries.len(), |i: int| entries[i]@)
}

/// Whether a name is that of a directory: it ends in the separator.
pub open spec fn names_directory(name: Seq<char>) -> bool {
    name.len() > 0 && name.last() == SEPARATOR
}

impl ArchiveEntry {
    /// The entry with this name and this declared length. It is a directory where its name
    /// ends in the separator.
    pub fn new(name: String, size: u64) -> (entry: ArchiveEntry)
        ensures
            entry@ == (EntryModel { name: name@, size, is_dir: names_directory(name@) }),
    {
        let is_dir = ends_in(name.as_str(), SEPARATOR);
        ArchiveEntry { name, size, is_dir }
    }
}

/// The sum of the lengths that the entries declare.
pub open spec fn declared_total(entries: Seq<EntryModel>) -> nat
    decreases entries.len(),
{
    if entries.len() == 0 {
        0
    } else {
        declared_total(entries.drop_last()) + entries.last().size as nat
    }
}

/// `n` where it fits in 64 bits, else the greatest number that does.
pub open spec fn capped(n: nat) -> u64 {
    if n > u64::MAX {
        u64::MAX
    } else {
        n as u64
    }
}

/// The sum of the lengths that the entries declare, capped at what 64 bits hold.
pub fn total_size(entries: &Vec<ArchiveEntry>) -> (total: u64)
    ensures
        total == capped(declared_total(entry_views(entries@))),
{
    let mut total: u64 = 0;
    let mut i: usize = 0;
    let ghost all = entry_views(entries@);
    assert(all.take(0) =~= Seq::<EntryModel>::empty());
    while i < entries.len()
        invariant
            i <= entries.len(),
            all == entry_views(entries@),
            total == capped(declared_total(all.take(i as int))),
        decreases entries.len() - i,
    {
        assert(all.take(i + 1).drop_last() =~= all.take(i as int));
        total = total.saturating_add(entries[i].size);
        i += 1;
    }
    assert(all.take(i as int) =~= all);
    total
}

/// Where an extraction stands. Each phase waits for the outcome of one piece of outside
/// work.
#[derive(Clone, Copy, Debug, PartialEq, Eq)]
pub enum ExtractPhase {
    /// The length of the staging file is asked for.
    Measuring,
    /// The staging file is being opened as an archive.
    Opening,
    /// The entries are unpacked one after the other.
    Unpacking,
    /// Every entry has been unpacked.
    Complete,
    /// The extraction was given up.
    Failed { error: ExtractError },
}

/// What the outside world reports to an extraction.
#[derive(Debug, PartialEq, Eq)]
pub enum ExtractEvent {
    /// The staging file holds so many bytes.
    StagingLength { length: u64 },
    /// The staging file is a well-formed archive with these entries, in its own order.
    ArchiveOpened { entries: Vec<ArchiveEntry> },
    /// The staging file is no well-formed archive.
    ArchiveRejected,
    /// So many bytes of the entry at work were written to its output.
    ChunkCopied { length: u64 },
    /// The entry at work is done: its directory stands, or its output is written in full.
    EntryDone,
    /// The staging file could not be read, or an output could not be made or written.
    IoFailed,
}

/// An event with its texts taken as sequences of characters.
pub enum ExtractEventModel {
    StagingLength { length: u64 },
    ArchiveOpened { entries: Seq<EntryModel> },
    ArchiveRejected,
    ChunkCopied { length: u64 },
    EntryDone,
    IoFailed,
}

impl View for ExtractEvent {
    type V = ExtractEventModel;

    open spec fn view(&self) -> ExtractEventModel {
        match *self {
            ExtractEvent::StagingLength { length } => ExtractEventModel::StagingLength { length },
            ExtractEvent::ArchiveOpened { entries } => ExtractEventModel::ArchiveOpened {
                entries: entry_views(entries@),
            },
            ExtractEvent::ArchiveRejected => ExtractEventModel::ArchiveRejected,
            ExtractEvent::ChunkCopied { length } => ExtractEventModel::ChunkCopied { length },
            ExtractEvent::EntryDone => ExtractEventModel::EntryDone,
            ExtractEvent::IoFailed => ExtractEventModel::IoFailed,
        }
    }
}

/// The outside work that an extraction waits for.
#[derive(Debug, PartialEq, Eq)]
pub enum ExtractAction {
    /// Ask for the length of the staging file.
    MeasureStaging,
    /// Open the staging file as an archive and list its entries.
    OpenArchive,
    /// Make the directory at `path`, and the directories above it that are missing.
    MakeDirectory { path: String },
    /// Make the directories above `path` that are missing, then write the contents of the
    /// entry with this index to `path`, in place of whatever is there.
    WriteFile { index: usize, path: String },
    /// Nothing is left to do: the extraction has succeeded.
    Finish,
    /// Nothing is left to do: the extraction is given up.
    Fail { error: ExtractError },
}

/// An action with its texts taken as sequences of characters.
pub enum ExtractActionModel {
    MeasureStaging,
    OpenArchive,
    MakeDirectory { path: Seq<char> },
    WriteFile { index: nat, path: Seq<char> },
    Finish,
    Fail { error: ExtractError },
}

impl View for ExtractAction {
    type V = ExtractActionModel;

    open spec fn view(&self) -> ExtractActionModel {
        match *self {
            ExtractAction::MeasureStaging => ExtractActionModel::MeasureStaging,
            ExtractAction::OpenArchive => ExtractActionModel::OpenArchive,
            ExtractAction::MakeDirectory { path } => ExtractActionModel::MakeDirectory {
                path: path@,
            },
            ExtractAction::WriteFile { index, path } => ExtractActionModel::WriteFile {
                index: index as nat,
                path: path@,
            },
            ExtractAction::Finish => ExtractActionModel::Finish,
            ExtractAction::Fail { error } => ExtractActionModel::Fail { error },
        }
    }
}

/// What a caller may show of a running extraction.
#[derive(Clone, Copy, Debug, PartialEq, Eq)]
pub struct ExtractProgress {
    /// The bytes written to outputs so far.
    pub copied: u64,
    /// The bytes that the entries declare together; `None` where they declare none, so
    /// that no share of the whole can be shown.
    pub total: Option<u64>,
    /// The entries that are done.
    pub entries_done: usize,
}

/// The state of one extraction.
#[derive(Debug, PartialEq, Eq)]
pub struct Extraction {
    /// The directory that the entries are unpacked into.
    pub destination: String,
    /// The entries of the archive, in its own order; empty until the archive is open.
    pub entries: Vec<ArchiveEntry>,
    /// The index of the entry at work: as many entries are done.
    pub next: usize,
    /// The bytes written to outputs so far.
    pub copied: u64,
    /// The bytes that the entries declare together.
    pub total: u64,
    /// Where the extraction stands.
    pub phase: ExtractPhase,
}

/// An extraction with its texts taken as sequences of characters.
pub struct ExtractionModel {
    pub destination: Seq<char>,
    pub entries: Seq<EntryModel>,
    pub next: nat,
    pub copied: u64,
    pub total: u64,
    pub phase: ExtractPhase,
}

impl View for Extraction {
    type V = ExtractionModel;

    open spec fn view(&self) -> ExtractionModel {
        ExtractionModel {
            destination: self.destination@,
            entries: entry_views(self.entries@),
            next: self.next as nat,
            copied: self.copied,
            total: self.total,
            phase: self.phase,
        }
    }
}

impl ExtractionModel {
    /// What holds of every state that an extraction can reach.
    pub open spec fn wf(self) -> bool {
        &&& self.next <= self.entries.len()
        &&& self.total == capped(declared_total(self.entries))
        &&& self.phase is Unpacking ==> self.next < self.entries.len()
        &&& self.phase is Complete ==> self.next == self.entries.len()
        &&& (self.phase is Measuring || self.phase is Opening) ==> self.entries.len() == 0
            && self.copied == 0
    }

    /// Whether the extraction has come to its end, in success or in failure.
    pub open spec fn is_finished(self) -> bool {
        self.phase is Complete || self.phase is Failed
    }

    /// The state in which the extraction of a staging file into `destination` begins.
    pub open spec fn begin(destination: Seq<char>) -> ExtractionModel {
        ExtractionModel {
            destination,
            entries: Seq::empty(),
            next: 0,
            copied: 0,
            total: 0,
            phase: ExtractPhase::Measuring,
        }
    }

    /// Where the entry with this name is unpacked to.
    pub open spec fn output_path(self, name: Seq<char>) -> Seq<char> {
        joined(self.destination, name)
    }

    /// The state that follows `self` when `event` is reported. An event that the phase does
    /// not wait for changes nothing.
    pub open spec fn step(self, event: ExtractEventModel) -> ExtractionModel {
        match (self.phase, event) {
            (ExtractPhase::Complete, _) => self,
            (ExtractPhase::Failed { .. }, _) => self,
            (_, ExtractEventModel::IoFailed) => ExtractionModel {
                phase: ExtractPhase::Failed { error: ExtractError::Io },
                ..self
            },
            (ExtractPhase::Measuring, ExtractEventModel::StagingLength { length }) => ExtractionModel {
                phase: if length == 0 {
                    ExtractPhase::Failed { error: ExtractError::EmptyArchive }
                } else {
                    ExtractPhase::Opening
                },
                ..self
            },
            (ExtractPhase::Opening, ExtractEventModel::ArchiveRejected) => ExtractionModel {
                phase: ExtractPhase::Failed { error: ExtractError::CorruptArchive },
                ..self
            },
            (ExtractPhase::Opening, ExtractEventModel::ArchiveOpened { entries }) => ExtractionModel {
                entries,
                next: 0,
                copied: 0,
                total: capped(declared_total(entries)),
                phase: if entries.len() == 0 {
                    ExtractPhase::Complete
                } else {
                    ExtractPhase::Unpacking
                },
                ..self
            },
            (ExtractPhase::Unpacking, ExtractEventModel::ChunkCopied { length }) => ExtractionModel {
                copied: capped((self.copied + length) as nat),
                ..self
            },
            (ExtractPhase::Unpacking, ExtractEventModel::EntryDone) => if self.next + 1
                >= self.entries.len() {
                ExtractionModel { next: self.entries.len(), phase: ExtractPhase::Complete, ..self }
            } else {
                ExtractionModel { next: self.next + 1, ..self }
            },
            _ => self,
        }
    }

    /// The outside work that the state waits for. While entries are unpacked it is the
    /// work on the entry at hand: a directory is made, a file is written, each at the
    /// entry's name read from inside the destination.
    pub open spec fn awaited(self) -> ExtractActionModel {
        match self.phase {
            ExtractPhase::Measuring => ExtractActionModel::MeasureStaging,
            ExtractPhase::Opening => ExtractActionModel::OpenArchive,
            ExtractPhase::Unpacking => if self.next >= self.entries.len() {
                ExtractActionModel::Finish
            } else if self.entries[self.next as int].is_dir {
                ExtractActionModel::MakeDirectory {
                    path: self.output_path(self.entries[self.next as int].name),
                }
            } else {
                ExtractActionModel::WriteFile {
                    index: self.next,
                    path: self.output_path(self.entries[self.next as int].name),
                }
            },
            ExtractPhase::Complete => ExtractActionModel::Finish,
            ExtractPhase::Failed { error } => ExtractActionModel::Fail { error },
        }
    }

    /// What a caller may show of the extraction.
    pub open spec fn progress(self) -> ExtractProgress {
        ExtractProgress {
            copied: self.copied,
            total: if self.total == 0 {
                None
            } else {
                Some(self.total)
            },
            entries_done: self.next as usize,
        }
    }
}

impl Extraction {
    /// Begins the extraction of a staging file into `destination`.
    pub fn begin(destination: String) -> (state: Extraction)
        ensures
            state@ == ExtractionModel::begin(destination@),
            state@.wf(),
    {
        let state = Extraction {
            destination,
            entries: Vec::new(),
            next: 0,
            copied: 0,
            total: 0,
            phase: ExtractPhase::Measuring,
        };
        assert(state@.entries =~= Seq::<EntryModel>::empty());
        state
    }

    /// The state that follows when `event` is reported.
    pub fn step(self, event: ExtractEvent) -> (next: Extraction)
        ensures
            next@ == self@.step(event@),
            self@.wf() ==> next@.wf(),
    {
        match (self.phase, event) {
            (ExtractPhase::Complete, _) => self,
            (ExtractPhase::Failed { .. }, _) => self,
            (_, ExtractEvent::IoFailed) => Extraction {
                phase: ExtractPhase::Failed { error: ExtractError::Io },
                ..self
            },
            (ExtractPhase::Measuring, ExtractEvent::StagingLength { length }) => {
                let phase = if length == 0 {
                    ExtractPhase::Failed { error: ExtractError::EmptyArchive }
                } else {
                    ExtractPhase::Opening
                };
                Extraction { phase, ..self }
            },
            (ExtractPhase::Opening, ExtractEvent::ArchiveRejected) => Extraction {
                phase: ExtractPhase::Failed { error: ExtractError::CorruptArchive },
                ..self
            },
            (ExtractPhase::Opening, ExtractEvent::ArchiveOpened { entries }) => {
                let total = total_size(&entries);
                let phase = if entries.len() == 0 {
                    ExtractPhase::Complete
                } else {
                    ExtractPhase::Unpacking
                };
                Extraction { entries, next: 0, copied: 0, total, phase, ..self }
            },
            (ExtractPhase::Unpacking, ExtractEvent::ChunkCopied { length }) => Extraction {
                copied: self.copied.saturating_add(length),
                ..self
            },
            (ExtractPhase::Unpacking, ExtractEvent::EntryDone) => {
                if self.next >= self.entries.len() || self.next + 1 >= self.entries.len() {
                    Extraction { next: self.entries.len(), phase: ExtractPhase::Complete, ..self }
                } else {
                    Extraction { next: self.next + 1, ..self }
                }
            },
            _ => self,
        }
    }

    /// The outside work that the state waits for.
    pub fn awaited(&self) -> (action: ExtractAction)
        ensures
            action@ == self@.awaited(),
    {
        match self.phase {
            ExtractPhase::Measuring => ExtractAction::MeasureStaging,
            ExtractPhase::Opening => ExtractAction::OpenArchive,
            ExtractPhase::Unpacking => {
                if self.next >= self.entries.len() {
                    return ExtractAction::Finish;
                }
                let entry = &self.entries[self.next];
                let path = join_path(self.destination.as_str(), entry.name.as_str());
                if entry.is_dir {
                    ExtractAction::MakeDirectory { path }
                } else {
                    ExtractAction::WriteFile { index: self.next, path }
                }
            },
            ExtractPhase::Complete => ExtractAction::Finish,
            ExtractPhase::Failed { error } => ExtractAction::Fail { error },
        }
    }

    /// What a caller may show of the extraction.
    pub fn progress(&self) -> (shown: ExtractProgress)
        ensures
            shown == self@.progress(),
    {
        ExtractProgress {
            copied: self.copied,
            total: if self.total == 0 {
                None
            } else {
                Some(self.total)
            },
            entries_done: self.next,
        }
    }
}

/// The state after `done` entries in a row were reported done.
pub open spec fn after_entries(state: ExtractionModel, done: nat) -> ExtractionModel
    decreases done,
{
    if done == 0 {
        state
    } else {
        after_entries(state, (done - 1) as nat).step(ExtractEventModel::EntryDone)
    }
}

/// An empty staging file is turned away before it is opened. The extraction fails with
/// `EmptyArchive`, waits for nothing but to report that, and no later event brings it to
/// open the file as an archive.
pub proof fn law_empty_staging_is_turned_away(state: ExtractionModel, later: ExtractEventModel)
    requires
        state.phase is Measuring,
    ensures
        ({
            let failed = state.step(ExtractEventModel::StagingLength { length: 0 });
            &&& failed.phase == ExtractPhase::Failed { error: ExtractError::EmptyArchive }
            &&& failed.awaited() == ExtractActionModel::Fail { error: ExtractError::EmptyArchive }
            &&& failed.step(later) == failed
        }),
{
}

/// The entries are unpacked in the archive's order, each of them once. After the archive
/// was opened and `done` of its entries are done, the extraction is at work on the entry
/// with index `done`, or complete where none is left.
pub proof fn law_entries_in_order(state: ExtractionModel, entries: Seq<EntryModel>, done: nat)
    requires
        state.phase is Opening,
        done <= entries.len(),
    ensures
        ({
            let opened = state.step(ExtractEventModel::ArchiveOpened { entries });
            let reached = after_entries(opened, done);
            &&& reached.entries == entries
            &&& reached.destination == state.destination
            &&& reached.next == done
            &&& reached.total == capped(declared_total(entries))
            &&& done < entries.len() ==> reached.phase is Unpacking && (reached.awaited()
                matches ExtractActionModel::MakeDirectory { path } ==> entries[done as int].is_dir
                && path == joined(state.destination, entries[done as int].name)) && (
            reached.awaited() matches ExtractActionModel::WriteFile { index, path }
                ==> !entries[done as int].is_dir && index == done && path == joined(
                state.destination,
                entries[done as int].name,
            )) && (reached.awaited() is MakeDirectory || reached.awaited() is WriteFile)
            &&& done == entries.len() ==> reached.phase is Complete
        }),
    decreases done,
{
    if done > 0 {
        law_entries_in_order(state, entries, (done - 1) as nat);
    }
}

/// A failure of the outside world ends an extraction that is under way at once, with `Io`.
pub proof fn law_failure_aborts(state: ExtractionModel)
    requires
        !state.is_finished(),
    ensures
        state.step(ExtractEventModel::IoFailed).phase == (ExtractPhase::Failed {
            error: ExtractError::Io,
        }),
        state.step(ExtractEventModel::IoFailed).next == state.next,
{
}

} // verus!
