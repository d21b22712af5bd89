//! The acquisition of one artifact: nothing is done where its output is there already;
//! else its archive is fetched, unpacked and removed.

use crate::config::Config;
use crate::extract::{
    ExtractAction, ExtractActionModel, ExtractError, ExtractEvent, ExtractEventModel, ExtractPhase,
    Extraction, ExtractionModel,
};
use crate::models::Game;
use crate::probe::{probe_outcome, probe_result, ProbeAnswer};
use crate::text::{chars_of, followed_by, decimal, extend_chars, join_path, joined, push_decimal, string_of};
use crate::transfer::{
    RetryBudget, TransferAction, TransferError, TransferEvent, TransferPhase, TransferState,
};
use vstd::prelude::*;

verus! {

/// The extension of the archive that is fetched.
pub const ARCHIVE_EXTENSION: &'static str = ".zip";

/// The extension of the file that the archive holds.
pub const OUTPUT_EXTENSION: &'static str = ".iso";

/// The seconds that the operator is given after a window was opened for them.
pub const SETTLE_SECONDS: u64 = 5;

/// How the archive gets to the staging file.
#[derive(Clone, Copy, Debug, PartialEq, Eq)]
pub enum TransferMode {
    /// The downloader fetches it.
    Automated,
    /// The operator fetches it in a browser and puts it in place.
    ManualAssisted,
}

/// Why an acquisition was given up.
#[derive(Clone, Copy, Debug, PartialEq, Eq)]
pub enum AcquireError {
    /// Every attempt at the transfer has failed.
    TransferRetriesExhausted { attempts: u32 },
    /// The staging file holds no byte at all.
    EmptyArchive,
    /// The staging file is no well-formed archive.
    CorruptArchive,
    /// The staging file could not be read, or an output could not be made or written.
    ExtractionIo,
    /// The staging file could not be measured, opened, written or removed.
    Filesystem,
    /// The browser that the operator was to fetch the archive with could not be opened.
    BrowserUnavailable,
}

impl AcquireError {
    /// What is said of the error on behalf of the artifact called `name`: what failed, for
    /// which artifact and, for a transfer that was given up, after how many attempts.
    pub open spec fn spec_describe(&self, name: Seq<char>) -> Seq<char> {
        match *self {
            AcquireError::TransferRetriesExhausted { attempts } => "Failed to download "@ + name
                + " after "@ + decimal(attempts as nat) + " attempts."@,
            AcquireError::EmptyArchive => "The archive of "@ + name + " is empty (0 bytes)."@,
            AcquireError::CorruptArchive => "The archive of "@ + name
                + " is invalid: it may be corrupted or incomplete. Try downloading again."@,
            AcquireError::ExtractionIo => "The archive of "@ + name + " could not be unpacked."@,
            AcquireError::Filesystem => "The staging file of "@ + name + " could not be used."@,
            AcquireError::BrowserUnavailable => "The browser could not be opened for "@ + name
                + "."@,
        }
    }

    /// What is said of the error on behalf of the artifact called `name`.
    pub fn describe(&self, name: &str) -> (text: String)
        ensures
            text@ == self.spec_describe(name@),
    {
        let name_chars = chars_of(name);
        match *self {
            AcquireError::TransferRetriesExhausted { attempts } => {
                let mut out = chars_of("Failed to download ");
                extend_chars(&mut out, name_chars.as_slice());
                let middle = chars_of(" after ");
                extend_chars(&mut out, middle.as_slice());
                push_decimal(attempts as u64, &mut out);
                let end = chars_of(" attempts.");
                extend_chars(&mut out, end.as_slice());
                string_of(out.as_slice())
            },
            AcquireError::EmptyArchive => {
                let mut out = chars_of("The archive of ");
                extend_chars(&mut out, name_chars.as_slice());
                let end = chars_of(" is empty (0 bytes).");
                extend_chars(&mut out, end.as_slice());
                string_of(out.as_slice())
            },
            AcquireError::CorruptArchive => {
                let mut out = chars_of("The archive of ");
                extend_chars(&mut out, name_chars.as_slice());
                let end = chars_of(
                    " is invalid: it may be corrupted or incomplete. Try downloading again.",
                );
                extend_chars(&mut out, end.as_slice());
                string_of(out.as_slice())
            },
            AcquireError::ExtractionIo => {
                let mut out = chars_of("The archive of ");
                extend_chars(&mut out, name_chars.as_slice());
                let end = chars_of(" could not be unpacked.");
                extend_chars(&mut out, end.as_slice());
                string_of(out.as_slice())
            },
            AcquireError::Filesystem => {
                let mut out = chars_of("The staging file of ");
                extend_chars(&mut out, name_chars.as_slice());
                let end = chars_of(" could not be used.");
                extend_chars(&mut out, end.as_slice());
                string_of(out.as_slice())
            },
            AcquireError::BrowserUnavailable => {
                let mut out = chars_of("The browser could not be opened for ");
                extend_chars(&mut out, name_chars.as_slice());
                let end = chars_of(".");
                extend_chars(&mut out, end.as_slice());
                string_of(out.as_slice())
            },
        }
    }
}

/// The acquisition error that a transfer error becomes.
pub open spec fn transfer_failure(error: TransferError) -> AcquireError {
    match error {
        TransferError::RetriesExhausted { attempts } => AcquireError::TransferRetriesExhausted {
            attempts,
        },
        TransferError::Filesystem => AcquireError::Filesystem,
    }
}

/// The acquisition error that an extraction error becomes.
pub open spec fn extraction_failure(error: ExtractError) -> AcquireError {
    match error {
        ExtractError::EmptyArchive => AcquireError::EmptyArchive,
        ExtractError::CorruptArchive => AcquireError::CorruptArchive,
        ExtractError::Io => AcquireError::ExtractionIo,
    }
}

/// What is to be acquired: where it comes from, the folder it goes to, and the name that
/// its files are called by.
#[derive(Debug, PartialEq, Eq)]
pub struct TransferTarget {
    /// The address of the archive.
    pub url: String,
    /// The folder that holds the staging file and the output.
    pub destination: String,
    /// The name of the artifact, without any extension.
    pub name: String,
}

/// A target with its texts taken as sequences of characters.
pub struct TargetModel {
    pub url: Seq<char>,
    pub destination: Seq<char>,
    pub name: Seq<char>,
}

impl View for TransferTarget {
    type V = TargetModel;

    open spec fn view(&self) -> TargetModel {
        TargetModel { url: self.url@, destination: self.destination@, name: self.name@ }
    }
}

impl TargetModel {
    /// The name of the staging file: the artifact's name with the archive's extension.
    pub open spec fn staging_name(self) -> Seq<char> {
        self.name + ARCHIVE_EXTENSION@
    }

    /// The name of the output: the artifact's name with the output's extension.
    pub open spec fn output_name(self) -> Seq<char> {
        self.name + OUTPUT_EXTENSION@
    }

    /// The path of the staging file, inside the destination.
    pub open spec fn staging_path(self) -> Seq<char> {
        joined(self.destination, self.staging_name())
    }

    /// The path of the output, inside the destination.
    pub open spec fn output_path(self) -> Seq<char> {
        joined(self.destination, self.output_name())
    }
}

impl TransferTarget {
    /// The name of the staging file.
    pub fn staging_name(&self) -> (name: String)
        ensures
            name@ == self@.staging_name(),
    {
        followed_by(self.name.as_str(), ARCHIVE_EXTENSION)
    }

    /// The name of the output.
    pub fn output_name(&self) -> (name: String)
        ensures
            name@ == self@.output_name(),
    {
        followed_by(self.name.as_str(), OUTPUT_EXTENSION)
    }

    /// The path of the staging file.
    pub fn staging_path(&self) -> (path: String)
        ensures
            path@ == self@.staging_path(),
    {
        let name = self.staging_name();
        join_path(self.destination.as_str(), name.as_str())
    }

    /// The path of the output.
    pub fn output_path(&self) -> (path: String)
        ensures
            path@ == self@.output_path(),
    {
        let name = self.output_name();
        join_path(self.destination.as_str(), name.as_str())
    }
}

/// Where an acquisition stands. Each phase waits for the outcome of one piece of outside
/// work.
#[derive(Debug, PartialEq, Eq)]
pub enum AcquirePhase {
    /// It is asked whether the output is there already.
    CheckingOutput,
    /// The server is asked for the length of the archive.
    Probing,
    /// The transfer is under way.
    Transferring { transfer: TransferState },
    /// A browser is being opened on the archive's address.
    OpeningBrowser,
    /// The destination is being shown to the operator.
    ShowingFolder,
    /// The operator is waited for.
    AwaitingOperator,
    /// It is asked whether the operator has put the staging file or the output in place.
    LookingForFiles,
    /// It is asked whether there is a staging file to unpack.
    CheckingStaging,
    /// The extraction is under way.
    Extracting { extraction: Extraction },
    /// The staging file is being removed.
    Removing,
    /// The acquisition has succeeded.
    Done,
    /// The acquisition was given up.
    Failed { error: AcquireError },
}

/// A phase with its texts taken as sequences of characters.
pub enum AcquirePhaseModel {
    CheckingOutput,
    Probing,
    Transferring { transfer: TransferState },
    OpeningBrowser,
    ShowingFolder,
    AwaitingOperator,
    LookingForFiles,
    CheckingStaging,
    Extracting { extraction: ExtractionModel },
    Removing,
    Done,
    Failed { error: AcquireError },
}

impl View for AcquirePhase {
    type V = AcquirePhaseModel;

    open spec fn view(&self) -> AcquirePhaseModel {
        match *self {
            AcquirePhase::CheckingOutput => AcquirePhaseModel::CheckingOutput,
            AcquirePhase::Probing => AcquirePhaseModel::Probing,
            AcquirePhase::Transferring { transfer } => AcquirePhaseModel::Transferring { transfer },
            AcquirePhase::OpeningBrowser => AcquirePhaseModel::OpeningBrowser,
            AcquirePhase::ShowingFolder => AcquirePhaseModel::ShowingFolder,
            AcquirePhase::AwaitingOperator => AcquirePhaseModel::AwaitingOperator,
            AcquirePhase::LookingForFiles => AcquirePhaseModel::LookingForFiles,
            AcquirePhase::CheckingStaging => AcquirePhaseModel::CheckingStaging,
            AcquirePhase::Extracting { extraction } => AcquirePhaseModel::Extracting {
                extraction: extraction@,
            },
            AcquirePhase::Removing => AcquirePhaseModel::Removing,
            AcquirePhase::Done => AcquirePhaseModel::Done,
            AcquirePhase::Failed { error } => AcquirePhaseModel::Failed { error },
        }
    }
}

/// What the outside world reports to an acquisition.
#[derive(Debug, PartialEq, Eq)]
#[allow(inconsistent_fields)]
pub enum AcquireEvent {
    /// Whether the output is there.
    OutputChecked { exists: bool },
    /// The probe has ended: with the headers of the server's answer, or with `None` where
    /// no answer came.
    ProbeAnswered { answer: Option<ProbeAnswer> },
    /// Something has happened to the transfer.
    Transfer { event: TransferEvent },
    /// The browser was asked to open; `opened` says whether it did.
    BrowserOpened { opened: bool },
    /// The destination was shown.
    FolderShown,
    /// The operator says that the file is in place.
    OperatorReady,
    /// Whether the staging file is there, and whether the output is.
    FilesLooked { staging: bool, output: bool },
    /// Whether the staging file is there.
    StagingChecked { exists: bool },
    /// Something has happened to the extraction.
    Extract { event: ExtractEvent },
    /// The staging file was asked to be removed; `removed` says whether it is gone.
    StagingRemoved { removed: bool },
}

/// An event as the acquisition reads it: texts as sequences of characters, and of a
/// probe's answer only the length that it tells.
#[allow(inconsistent_fields)]
pub enum AcquireEventModel {
    OutputChecked { exists: bool },
    ProbeAnswered { total: Option<u64> },
    Transfer { event: TransferEvent },
    BrowserOpened { opened: bool },
    FolderShown,
    OperatorReady,
    FilesLooked { staging: bool, output: bool },
    StagingChecked { exists: bool },
    Extract { event: ExtractEventModel },
    StagingRemoved { removed: bool },
}

impl View for AcquireEvent {
    type V = AcquireEventModel;

    open spec fn view(&self) -> AcquireEventModel {
        match *self {
            AcquireEvent::OutputChecked { exists } => AcquireEventModel::OutputChecked { exists },
            AcquireEvent::ProbeAnswered { answer } => AcquireEventModel::ProbeAnswered {
                total: probe_result(answer),
            },
            AcquireEvent::Transfer { event } => AcquireEventModel::Transfer { event },
            AcquireEvent::BrowserOpened { opened } => AcquireEventModel::BrowserOpened { opened },
            AcquireEvent::FolderShown => AcquireEventModel::FolderShown,
            AcquireEvent::OperatorReady => AcquireEventModel::OperatorReady,
            AcquireEvent::FilesLooked { staging, output } => AcquireEventModel::FilesLooked {
                staging,
                output,
            },
            AcquireEvent::StagingChecked { exists } => AcquireEventModel::StagingChecked { exists },
            AcquireEvent::Extract { event } => AcquireEventModel::Extract { event: event@ },
            AcquireEvent::StagingRemoved { removed } => AcquireEventModel::StagingRemoved {
                removed,
            },
        }
    }
}

/// The outside work that an acquisition waits for.
#[derive(Debug, PartialEq, Eq)]
#[allow(inconsistent_fields)]
pub enum AcquireAction {
    /// Ask whether there is a file at `path`, the path of the output.
    CheckOutput { path: String },
    /// Ask the server at `url` for the first two bytes of the archive, and report the
    /// headers of its answer.
    Probe { url: String },
    /// Do this for the transfer from `url` to the staging file at `staging`.
    Transfer { action: TransferAction, url: String, staging: String },
    /// Open a browser on `url`, and where it opens give the operator some seconds.
    OpenBrowser { url: String },
    /// Tell the operator to put the file called `file_name` into `folder`, show them the
    /// folder, and give them some seconds.
    ShowFolder { folder: String, file_name: String },
    /// Wait until the operator says that the file is in place.
    AwaitOperator,
    /// Ask whether there is a file at `staging`, and whether there is one at `output`.
    LookForFiles { staging: String, output: String },
    /// Ask whether there is a file at `path`, the path of the staging file.
    CheckStaging { path: String },
    /// Do this for the extraction of the staging file at `staging`.
    Extract { action: ExtractAction, staging: String },
    /// Remove the staging file at `path`. That it cannot be removed is no error.
    RemoveStaging { path: String },
    /// Nothing is left to do: the output is at `path`.
    Done { path: String },
    /// Nothing is left to do: the acquisition is given up.
    Fail { error: AcquireError },
}

/// An action with its texts taken as sequences of characters.
#[allow(inconsistent_fields)]
pub enum AcquireActionModel {
    CheckOutput { path: Seq<char> },
    Probe { url: Seq<char> },
    Transfer { action: TransferAction, url: Seq<char>, staging: Seq<char> },
    OpenBrowser { url: Seq<char> },
    ShowFolder { folder: Seq<char>, file_name: Seq<char> },
    AwaitOperator,
    LookForFiles { staging: Seq<char>, output: Seq<char> },
    CheckStaging { path: Seq<char> },
    Extract { action: ExtractActionModel, staging: Seq<char> },
    RemoveStaging { path: Seq<char> },
    Done { path: Seq<char> },
    Fail { error: AcquireError },
}

impl View for AcquireAction {
    type V = AcquireActionModel;

    open spec fn view(&self) -> AcquireActionModel {
        match *self {
            AcquireAction::CheckOutput { path } => AcquireActionModel::CheckOutput { path: path@ },
            AcquireAction::Probe { url } => AcquireActionModel::Probe { url: url@ },
            AcquireAction::Transfer { action, url, staging } => AcquireActionModel::Transfer {
                action,
                url: url@,
                staging: staging@,
            },
            AcquireAction::OpenBrowser { url } => AcquireActionModel::OpenBrowser { url: url@ },
            AcquireAction::ShowFolder { folder, file_name } => AcquireActionModel::ShowFolder {
                folder: folder@,
                file_name: file_name@,
            },
            AcquireAction::AwaitOperator => AcquireActionModel::AwaitOperator,
            AcquireAction::LookForFiles { staging, output } => AcquireActionModel::LookForFiles {
                staging: staging@,
                output: output@,
            },
            AcquireAction::CheckStaging { path } => AcquireActionModel::CheckStaging {
                path: path@,
            },
            AcquireAction::Extract { action, staging } => AcquireActionModel::Extract {
                action: action@,
                staging: staging@,
            },
            AcquireAction::RemoveStaging { path } => AcquireActionModel::RemoveStaging {
                path: path@,
            },
            AcquireAction::Done { path } => AcquireActionModel::Done { path: path@ },
            AcquireAction::Fail { error } => AcquireActionModel::Fail { error },
        }
    }
}

/// The state of one acquisition.
#[derive(Debug, PartialEq, Eq)]
pub struct Acquisition {
    /// What is acquired.
    pub target: TransferTarget,
    /// How the archive gets to the staging file.
    pub mode: TransferMode,
    /// The budget of the transfer.
    pub budget: RetryBudget,
    /// Where the acquisition stands.
    pub phase: AcquirePhase,
}

/// An acquisition with its texts taken as sequences of characters.
pub struct AcquisitionModel {
    pub target: TargetModel,
    pub mode: TransferMode,
    pub budget: RetryBudget,
    pub phase: AcquirePhaseModel,
}

impl View for Acquisition {
    type V = AcquisitionModel;

    open spec fn view(&self) -> AcquisitionModel {
        AcquisitionModel {
            target: self.target@,
            mode: self.mode,
            budget: self.budget,
            phase: self.phase@,
        }
    }
}

/// The phase that an acquisition is in when its transfer stands as `transfer` does: the
/// transfer goes on until it has come to its end.
pub open spec fn phase_of_transfer(transfer: TransferState) -> AcquirePhaseModel {
    match transfer.phase {
        TransferPhase::Complete => AcquirePhaseModel::CheckingStaging,
        TransferPhase::Failed { error } => AcquirePhaseModel::Failed {
            error: transfer_failure(error),
        },
        _ => AcquirePhaseModel::Transferring { transfer },
    }
}

/// The phase that an acquisition is in when its extraction stands as `extraction` does:
/// the extraction goes on until it has come to its end.
pub open spec fn phase_of_extraction(extraction: ExtractionModel) -> AcquirePhaseModel {
    match extraction.phase {
        ExtractPhase::Complete => AcquirePhaseModel::Removing,
        ExtractPhase::Failed { error } => AcquirePhaseModel::Failed {
            error: extraction_failure(error),
        },
        _ => AcquirePhaseModel::Extracting { extraction },
    }
}

impl AcquisitionModel {
    /// What holds of every state that an acquisition can reach.
    pub open spec fn wf(self) -> bool {
        &&& self.phase matches AcquirePhaseModel::Transferring { transfer } ==> transfer.wf()
            && !transfer.is_finished() && transfer.budget == self.budget
        &&& self.phase matches AcquirePhaseModel::Extracting { extraction } ==> extraction.wf()
            && !extraction.is_finished() && extraction.destination == self.target.destination
    }

    /// Whether the acquisition has come to its end, in success or in failure.
    pub open spec fn is_finished(self) -> bool {
        self.phase is Done || self.phase is Failed
    }

    /// Whether the staging file is open for writing.
    pub open spec fn holds_writer(self) -> bool {
        self.phase matches AcquirePhaseModel::Transferring { transfer } && transfer.holds_writer()
    }

    /// The state in which an acquisition begins.
    pub open spec fn begin(target: TargetModel, mode: TransferMode, budget: RetryBudget) -> Self {
        AcquisitionModel { target, mode, budget, phase: AcquirePhaseModel::CheckingOutput }
    }

    /// The state that follows `self` when `event` is reported. An event that the phase does
    /// not wait for changes nothing.
    pub open spec fn step(self, event: AcquireEventModel) -> AcquisitionModel {
        let phase = match (self.phase, event) {
            (AcquirePhaseModel::CheckingOutput, AcquireEventModel::OutputChecked { exists }) => {
                if exists {
                    AcquirePhaseModel::Done
                } else {
                    match self.mode {
                        TransferMode::Automated => AcquirePhaseModel::Probing,
                        TransferMode::ManualAssisted => AcquirePhaseModel::OpeningBrowser,
                    }
                }
            },
            (AcquirePhaseModel::Probing, AcquireEventModel::ProbeAnswered { total }) => {
                phase_of_transfer(TransferState::spec_begin(self.budget, total))
            },
            (
                AcquirePhaseModel::Transferring { transfer },
                AcquireEventModel::Transfer { event },
            ) => phase_of_transfer(transfer.spec_step(event)),
            (AcquirePhaseModel::OpeningBrowser, AcquireEventModel::BrowserOpened { opened }) => {
                if opened {
                    AcquirePhaseModel::ShowingFolder
                } else {
                    AcquirePhaseModel::Failed { error: AcquireError::BrowserUnavailable }
                }
            },
            (AcquirePhaseModel::ShowingFolder, AcquireEventModel::FolderShown) => {
                AcquirePhaseModel::AwaitingOperator
            },
            (AcquirePhaseModel::AwaitingOperator, AcquireEventModel::OperatorReady) => {
                AcquirePhaseModel::LookingForFiles
            },
            (
                AcquirePhaseModel::LookingForFiles,
                AcquireEventModel::FilesLooked { staging, output },
            ) => {
                if staging {
                    AcquirePhaseModel::Extracting {
                        extraction: ExtractionModel::begin(self.target.destination),
                    }
                } else if output {
                    AcquirePhaseModel::Done
                } else {
                    AcquirePhaseModel::AwaitingOperator
                }
            },
            (AcquirePhaseModel::CheckingStaging, AcquireEventModel::StagingChecked { exists }) => {
                if exists {
                    AcquirePhaseModel::Extracting {
                        extraction: ExtractionModel::begin(self.target.destination),
                    }
                } else {
                    AcquirePhaseModel::Done
                }
            },
            (
                AcquirePhaseModel::Extracting { extraction },
                AcquireEventModel::Extract { event },
            ) => phase_of_extraction(extraction.step(event)),
            (AcquirePhaseModel::Removing, AcquireEventModel::StagingRemoved { .. }) => {
                AcquirePhaseModel::Done
            },
            (phase, _) => phase,
        };
        AcquisitionModel { phase, ..self }
    }

    /// The outside work that the state waits for.
    pub open spec fn awaited(self) -> AcquireActionModel {
        match self.phase {
            AcquirePhaseModel::CheckingOutput => AcquireActionModel::CheckOutput {
                path: self.target.output_path(),
            },
            AcquirePhaseModel::Probing => AcquireActionModel::Probe { url: self.target.url },
            AcquirePhaseModel::Transferring { transfer } => AcquireActionModel::Transfer {
                action: transfer.spec_awaited(),
                url: self.target.url,
                staging: self.target.staging_path(),
            },
            AcquirePhaseModel::OpeningBrowser => AcquireActionModel::OpenBrowser {
                url: self.target.url,
            },
            AcquirePhaseModel::ShowingFolder => AcquireActionModel::ShowFolder {
                folder: self.target.destination,
                file_name: self.target.staging_name(),
            },
            AcquirePhaseModel::AwaitingOperator => AcquireActionModel::AwaitOperator,
            AcquirePhaseModel::LookingForFiles => AcquireActionModel::LookForFiles {
                staging: self.target.staging_path(),
                output: self.target.output_path(),
            },
            AcquirePhaseModel::CheckingStaging => AcquireActionModel::CheckStaging {
                path: self.target.staging_path(),
            },
            AcquirePhaseModel::Extracting { extraction } => AcquireActionModel::Extract {
                action: extraction.awaited(),
                staging: self.target.staging_path(),
            },
            AcquirePhaseModel::Removing => AcquireActionModel::RemoveStaging {
                path: self.target.staging_path(),
            },
            AcquirePhaseModel::Done => AcquireActionModel::Done { path: self.target.output_path() },
            AcquirePhaseModel::Failed { error } => AcquireActionModel::Fail { error },
        }
    }
}

fn settle_transfer(transfer: TransferState) -> (phase: AcquirePhase)
    ensures
        phase@ == phase_of_transfer(transfer),
{
    match transfer.phase {
        TransferPhase::Complete => AcquirePhase::CheckingStaging,
        TransferPhase::Failed { error } => {
            let error = match error {
                TransferError::RetriesExhausted { attempts } => {
                    AcquireError::TransferRetriesExhausted { attempts }
                },
                TransferError::Filesystem => AcquireError::Filesystem,
            };
            AcquirePhase::Failed { error }
        },
        _ => AcquirePhase::Transferring { transfer },
    }
}

fn settle_extraction(extraction: Extraction) -> (phase: AcquirePhase)
    ensures
        phase@ == phase_of_extraction(extraction@),
{
    match extraction.phase {
        ExtractPhase::Complete => AcquirePhase::Removing,
        ExtractPhase::Failed { error } => {
            let error = match error {
                ExtractError::EmptyArchive => AcquireError::EmptyArchive,
                ExtractError::CorruptArchive => AcquireError::CorruptArchive,
                ExtractError::Io => AcquireError::ExtractionIo,
            };
            AcquirePhase::Failed { error }
        },
        _ => AcquirePhase::Extracting { extraction },
    }
}

impl Acquisition {
    /// Begins the acquisition of `target`.
    pub fn begin(target: TransferTarget, mode: TransferMode, budget: RetryBudget) -> (state:
        Acquisition)
        ensures
            state@ == AcquisitionModel::begin(target@, mode, budget),
            state@.wf(),
    {
        Acquisition { target, mode, budget, phase: AcquirePhase::CheckingOutput }
    }

    /// The state that follows when `event` is reported.
    pub fn step(self, event: AcquireEvent) -> (next: Acquisition)
        ensures
            next@ == self@.step(event@),
            self@.wf() ==> next@.wf(),
    {
        let Acquisition { target, mode, budget, phase } = self;
        let phase = match (phase, event) {
            (AcquirePhase::CheckingOutput, AcquireEvent::OutputChecked { exists }) => {
                if exists {
                    AcquirePhase::Done
                } else {
                    match mode {
                        TransferMode::Automated => AcquirePhase::Probing,
                        TransferMode::ManualAssisted => AcquirePhase::OpeningBrowser,
                    }
                }
            },
            (AcquirePhase::Probing, AcquireEvent::ProbeAnswered { answer }) => {
                let total = probe_outcome(&answer);
                settle_transfer(TransferState::begin(budget, total))
            },
            (AcquirePhase::Transferring { transfer }, AcquireEvent::Transfer { event }) => {
                settle_transfer(transfer.step(event))
            },
            (AcquirePhase::OpeningBrowser, AcquireEvent::BrowserOpened { opened }) => {
                if opened {
                    AcquirePhase::ShowingFolder
                } else {
                    AcquirePhase::Failed { error: AcquireError::BrowserUnavailable }
                }
            },
            (AcquirePhase::ShowingFolder, AcquireEvent::FolderShown) => {
                AcquirePhase::AwaitingOperator
            },
            (AcquirePhase::AwaitingOperator, AcquireEvent::OperatorReady) => {
                AcquirePhase::LookingForFiles
            },
            (AcquirePhase::LookingForFiles, AcquireEvent::FilesLooked { staging, output }) => {
                if staging {
                    AcquirePhase::Extracting {
                        extraction: Extraction::begin(target.destination.clone()),
                    }
                } else if output {
                    AcquirePhase::Done
                } else {
                    AcquirePhase::AwaitingOperator
                }
            },
            (AcquirePhase::CheckingStaging, AcquireEvent::StagingChecked { exists }) => {
                if exists {
                    AcquirePhase::Extracting {
                        extraction: Extraction::begin(target.destination.clone()),
                    }
                } else {
                    AcquirePhase::Done
                }
            },
            (AcquirePhase::Extracting { extraction }, AcquireEvent::Extract { event }) => {
                settle_extraction(extraction.step(event))
            },
            (AcquirePhase::Removing, AcquireEvent::StagingRemoved { .. }) => AcquirePhase::Done,
            (phase, _) => phase,
        };
        Acquisition { target, mode, budget, phase }
    }

    /// The outside work that the state waits for.
    pub fn awaited(&self) -> (action: AcquireAction)
        ensures
            action@ == self@.awaited(),
    {
        match &self.phase {
            AcquirePhase::CheckingOutput => AcquireAction::CheckOutput {
                path: self.target.output_path(),
            },
            AcquirePhase::Probing => AcquireAction::Probe { url: self.target.url.clone() },
            AcquirePhase::Transferring { transfer } => AcquireAction::Transfer {
                action: transfer.awaited(),
                url: self.target.url.clone(),
                staging: self.target.staging_path(),
            },
            AcquirePhase::OpeningBrowser => AcquireAction::OpenBrowser {
                url: self.target.url.clone(),
            },
            AcquirePhase::ShowingFolder => AcquireAction::ShowFolder {
                folder: self.target.destination.clone(),
                file_name: self.target.staging_name(),
            },
            AcquirePhase::AwaitingOperator => AcquireAction::AwaitOperator,
            AcquirePhase::LookingForFiles => AcquireAction::LookForFiles {
                staging: self.target.staging_path(),
                output: self.target.output_path(),
            },
            AcquirePhase::CheckingStaging => AcquireAction::CheckStaging {
                path: self.target.staging_path(),
            },
            AcquirePhase::Extracting { extraction } => AcquireAction::Extract {
                action: extraction.awaited(),
                staging: self.target.staging_path(),
            },
            AcquirePhase::Removing => AcquireAction::RemoveStaging {
                path: self.target.staging_path(),
            },
            AcquirePhase::Done => AcquireAction::Done { path: self.target.output_path() },
            AcquirePhase::Failed { error } => AcquireAction::Fail { error: *error },
        }
    }
}

/// Acquires the artifacts of the catalog under one configuration.
pub struct Downloader {
    config: Config,
}

impl Downloader {
    /// The configuration that the downloader works under.
    pub closed spec fn config(&self) -> Config {
        self.config
    }

    /// A downloader that works under a copy of `config`.
    pub fn new(config: &Config) -> (downloader: Self)
        ensures
            downloader.config() == *config,
    {
        Self { config: config.clone() }
    }

    /// What acquiring `game` means under the configuration: the archive is at the
    /// catalog's address followed by the entry's link, it goes to the folder for archives,
    /// and its files are called by the entry's clean title.
    pub open spec fn target_of(&self, game: Game, home: Option<Seq<char>>) -> TargetModel {
        TargetModel {
            url: self.config().iso_url@ + game.link@,
            destination: joined(
                self.config().spec_tmp_folder_path(home),
                self.config().tmp_iso_folder_name@,
            ),
            name: game.spec_clean_title(),
        }
    }

    /// How archives get to their staging files under the configuration.
    pub open spec fn mode(&self) -> TransferMode {
        if self.config().external_iso_download {
            TransferMode::ManualAssisted
        } else {
            TransferMode::Automated
        }
    }

    /// Begins the acquisition of `game`: the state that waits to hear whether the output
    /// is there already. `home` is the home directory, where it is known.
    pub fn download_ps2_element(&self, game: &Game, home: Option<&str>) -> (state: Acquisition)
        ensures
            state@ == AcquisitionModel::begin(
                self.target_of(
                    *game,
                    match home {
                        Some(h) => Some(h@),
                        None => None,
                    },
                ),
                self.mode(),
                RetryBudget {
                    max_attempts: self.config().max_retries,
                    delay_between_attempts: self.config().delay_between_retries,
                },
            ),
            state@.wf(),
    {
        let target = TransferTarget {
            url: followed_by(self.config.iso_url.as_str(), game.link.as_str()),
            destination: self.config.tmp_iso_folder_path(home),
            name: game.clean_title(),
        };
        let mode = if self.config.external_iso_download {
            TransferMode::ManualAssisted
        } else {
            TransferMode::Automated
        };
        Acquisition::begin(target, mode, self.config.retry_budget())
    }
}

/// An output that is there ends the acquisition at once. The acquisition begins by asking
/// for the output alone; where it is there, the acquisition is done with its path, and no
/// later event brings it to probe, to transfer or to do anything else.
pub proof fn law_existing_output_short_circuits(
    target: TargetModel,
    mode: TransferMode,
    budget: RetryBudget,
    later: AcquireEventModel,
)
    ensures
        ({
            let begun = AcquisitionModel::begin(target, mode, budget);
            let done = begun.step(AcquireEventModel::OutputChecked { exists: true });
            &&& begun.awaited() == AcquireActionModel::CheckOutput { path: target.output_path() }
            &&& done.awaited() == AcquireActionModel::Done { path: target.output_path() }
            &&& done.step(later) == done
        }),
{
}

/// One writer, and no reader beside it. An acquisition is in one phase at a time, so it
/// never waits for work of the extraction while its transfer holds the staging file open.
/// And it leaves the transfer only when the transfer has come to its end, where the file
/// is closed; it goes on towards the extraction only when the transfer has succeeded.
pub proof fn law_extraction_waits_for_transfer(state: AcquisitionModel, event: AcquireEventModel)
    ensures
        state.awaited() is Extract ==> !state.holds_writer(),
        state.holds_writer() ==> (state.awaited() matches AcquireActionModel::Transfer {
            action,
            ..
        } && action == TransferAction::CopyChunk),
        state.phase matches AcquirePhaseModel::Transferring { transfer } ==> {
            let next = state.step(event);
            &&& !(next.phase is Extracting)
            &&& !(next.phase is Transferring) ==> (event matches AcquireEventModel::Transfer {
                event: reported,
            } && transfer.spec_step(reported).is_finished() && !transfer.spec_step(
                reported,
            ).holds_writer())
            &&& next.phase is CheckingStaging ==> (event matches AcquireEventModel::Transfer {
                event: reported,
            } && transfer.spec_step(reported).phase is Complete)
        },
        state.step(event).phase is Extracting && !(state.phase is Extracting) ==> state.phase
            is CheckingStaging || state.phase is LookingForFiles,
{
}

/// A failure leaves the staging file in place. The staging file is removed only after an
/// extraction that has succeeded; an acquisition that has failed waits for nothing but to
/// report its error, whatever is reported to it later.
pub proof fn law_failure_keeps_staging(state: AcquisitionModel, event: AcquireEventModel)
    ensures
        state.step(event).awaited() is RemoveStaging && !(state.awaited() is RemoveStaging)
            ==> (state.phase matches AcquirePhaseModel::Extracting { extraction } && event
            matches AcquireEventModel::Extract { event: reported } && extraction.step(
            reported,
        ).phase is Complete),
        state.phase matches AcquirePhaseModel::Failed { error } ==> state.step(event) == state
            && state.awaited() == (AcquireActionModel::Fail { error }),
{
}

/// Errors of the transfer and of the extraction surface as they are: the error that ends
/// an acquisition is the error of the part that failed, and it comes the moment that part
/// fails. Beside them only a browser that does not open for the operator ends one.
pub proof fn law_errors_surface(state: AcquisitionModel, event: AcquireEventModel)
    requires
        !state.is_finished(),
    ensures
        state.step(event).phase matches AcquirePhaseModel::Failed { error } ==> {
            ||| state.phase matches AcquirePhaseModel::Transferring { transfer } && event
                matches AcquireEventModel::Transfer { event: reported } && transfer.spec_step(
                reported,
            ).phase matches TransferPhase::Failed { error: cause } && error == transfer_failure(
                cause,
            )
            ||| state.phase matches AcquirePhaseModel::Extracting { extraction } && event
                matches AcquireEventModel::Extract { event: reported } && extraction.step(
                reported,
            ).phase matches ExtractPhase::Failed { error: cause } && error
                == extraction_failure(cause)
            ||| state.phase is Probing && state.budget.max_attempts == 0 && error
                == AcquireError::TransferRetriesExhausted { attempts: 0 }
            ||| state.phase is OpeningBrowser && event == (AcquireEventModel::BrowserOpened {
                opened: false,
            }) && error == AcquireError::BrowserUnavailable
        },
{
}

} // verus!
