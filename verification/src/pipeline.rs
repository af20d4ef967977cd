//! The background pipeline of one installation: fetch, store, unpack,
//! register. The caller does the work and reports how each piece went; the
//! pipeline answers with what to announce and what to do next.

use vstd::prelude::*;
use crate::failure::InstallFailure;
use crate::format::{extension_of_path, is_supported_format, package_extension, supported};
use crate::progress::{InstallProgress, ProgressTracker, DOWNLOAD_COMPLETE, INSTALL_COMPLETE};
use crate::registry::{planned_registry, registry_plan, Reg, RegistryModel, RegistryPlan};
use crate::shortcut::{planned_shortcut, shortcut_plan, ShortCut, ShortcutModel, ShortcutPlan};

verus! {

/// What to do for the operating system once the package is unpacked. Each
/// part is optional and is applied only if it is there.
#[derive(Clone, Debug, PartialEq, Eq)]
pub struct Setting {
    pub reg: Option<Reg>,
    pub short_cut: Option<ShortCut>,
}

/// Where a run stands: the piece of work whose report is awaited.
#[derive(Clone, Copy, Debug, PartialEq, Eq, Structural)]
pub enum Phase {
    /// The request is out; the response is awaited.
    Fetching,
    /// The local file that receives the body is being created.
    CreatingFile,
    /// The body arrives chunk by chunk.
    Streaming,
    /// The saved package is being opened.
    Opening,
    /// The package is being unpacked.
    Extracting,
    /// The registry is being written.
    Registering,
    /// The desktop shortcut is being created.
    Linking,
    /// Everything succeeded.
    Finished,
    /// The run ended on a failure.
    Failed,
}

/// A report from the caller on the piece of work it was asked to do.
#[derive(Debug, PartialEq, Eq)]
pub enum Event {
    FetchFailed,
    /// The response arrived and announced this length, if any.
    FetchStarted { content_length: Option<u64> },
    SaveFileCreated,
    SaveFileNotCreated { reason: String },
    /// A chunk of `len` bytes was read and appended to the save file.
    ChunkStored { len: u64 },
    /// A chunk was read but could not be appended.
    ChunkNotStored { reason: String },
    /// The body broke off.
    StreamBroken { reason: String },
    /// The body is complete.
    StreamEnded,
    ArchiveOpened,
    ArchiveNotOpened { reason: String },
    Extracted,
    ExtractionFailed { reason: String },
    RegistryWritten,
    RegistryNotWritten { reason: String },
    ShortcutCreated,
    ShortcutNotCreated { reason: String },
}

/// The piece of work the caller does next.
#[derive(Debug, PartialEq, Eq)]
pub enum Next {
    CreateSaveFile,
    /// Wait for the next chunk and append it to the save file.
    ReadChunk,
    OpenArchive,
    Extract,
    WriteRegistry(RegistryPlan),
    CreateShortcut(ShortcutPlan),
    /// The run is over.
    Stop,
    /// The report was not one this phase waits for: carry on as before.
    Nothing,
}

/// The next piece of work, with its plan as plain text.
pub enum NextModel {
    CreateSaveFile,
    ReadChunk,
    OpenArchive,
    Extract,
    WriteRegistry(RegistryModel),
    CreateShortcut(ShortcutModel),
    Stop,
    Nothing,
}

impl View for Next {
    type V = NextModel;

    open spec fn view(&self) -> NextModel {
        match self {
            Next::CreateSaveFile => NextModel::CreateSaveFile,
            Next::ReadChunk => NextModel::ReadChunk,
            Next::OpenArchive => NextModel::OpenArchive,
            Next::Extract => NextModel::Extract,
            Next::WriteRegistry(plan) => NextModel::WriteRegistry(plan@),
            Next::CreateShortcut(plan) => NextModel::CreateShortcut(plan@),
            Next::Stop => NextModel::Stop,
            Next::Nothing => NextModel::Nothing,
        }
    }
}

/// The pipeline's answer to a report. The caller acts on it in this order:
/// announce the progress, report the failure, remove the save file, then
/// take up the next piece of work.
#[derive(Debug, PartialEq, Eq)]
pub struct Reaction {
    pub progress: Option<InstallProgress>,
    pub failure: Option<InstallFailure>,
    pub remove_save_file: bool,
    pub next: Next,
}

/// An answer with its plan as plain text.
pub struct ReactionModel {
    pub progress: Option<InstallProgress>,
    pub failure: Option<InstallFailure>,
    pub remove_save_file: bool,
    pub next: NextModel,
}

impl View for Reaction {
    type V = ReactionModel;

    open spec fn view(&self) -> ReactionModel {
        ReactionModel {
            progress: self.progress,
            failure: self.failure,
            remove_save_file: self.remove_save_file,
            next: self.next@,
        }
    }
}

/// Go on with the next piece of work; nothing to announce.
pub open spec fn proceed(next: NextModel) -> ReactionModel {
    ReactionModel { progress: None, failure: None, remove_save_file: false, next }
}

/// The run ends here on a failure: report it, remove the save file, stop.
pub open spec fn fail(failure: InstallFailure) -> ReactionModel {
    ReactionModel {
        progress: None,
        failure: Some(failure),
        remove_save_file: true,
        next: NextModel::Stop,
    }
}

/// The run ends here in success: announce completion, remove the save file,
/// stop.
pub open spec fn complete() -> ReactionModel {
    ReactionModel {
        progress: Some(InstallProgress { progress: 100 }),
        failure: None,
        remove_save_file: true,
        next: NextModel::Stop,
    }
}

/// The state of one run.
#[derive(Debug, PartialEq, Eq)]
pub struct Pipeline {
    pub phase: Phase,
    pub tracker: ProgressTracker,
    /// The extension of the save path, in lowercase.
    pub extension: String,
    pub reg: Option<Reg>,
    pub short_cut: Option<ShortCut>,
}

impl Pipeline {
    /// The progress account is consistent.
    pub open spec fn wf(self) -> bool {
        self.tracker.wf()
    }

    /// The run at its start, with the request just sent.
    pub open spec fn started(extension: String, setting: Option<Setting>) -> Pipeline {
        Pipeline {
            phase: Phase::Fetching,
            tracker: ProgressTracker::fresh(None),
            extension,
            reg: match setting {
                Some(s) => s.reg,
                None => None,
            },
            short_cut: match setting {
                Some(s) => s.short_cut,
                None => None,
            },
        }
    }

    /// This run, moved on to another phase.
    pub open spec fn moved_to(self, phase: Phase) -> Pipeline {
        Pipeline { phase, ..self }
    }

    /// The run ends on a failure.
    pub open spec fn failing(self, failure: InstallFailure) -> (Pipeline, ReactionModel) {
        (self.moved_to(Phase::Failed), fail(failure))
    }

    /// What follows the unpacking (`registry_due`) or the registry writer:
    /// the registry if it is due and asked for, else the shortcut if asked
    /// for, else the end of the run.
    pub open spec fn registration(self, registry_due: bool) -> (Pipeline, ReactionModel) {
        if registry_due && self.reg.is_some() {
            (
                self.moved_to(Phase::Registering),
                proceed(NextModel::WriteRegistry(planned_registry(self.reg.unwrap()))),
            )
        } else if self.short_cut.is_some() {
            (
                self.moved_to(Phase::Linking),
                proceed(NextModel::CreateShortcut(planned_shortcut(self.short_cut.unwrap()))),
            )
        } else {
            (self.moved_to(Phase::Finished), complete())
        }
    }

    /// The state after a report and the answer to it. A report that the
    /// phase does not wait for changes nothing and asks for nothing.
    pub open spec fn outcome(self, event: Event) -> (Pipeline, ReactionModel) {
        match (self.phase, event) {
            (Phase::Fetching, Event::FetchFailed) => self.failing(InstallFailure::FetchFailed),
            (Phase::Fetching, Event::FetchStarted { content_length }) => (
                Pipeline {
                    phase: Phase::CreatingFile,
                    tracker: ProgressTracker::fresh(content_length),
                    ..self
                },
                proceed(NextModel::CreateSaveFile),
            ),
            (Phase::CreatingFile, Event::SaveFileCreated) => (
                self.moved_to(Phase::Streaming),
                proceed(NextModel::ReadChunk),
            ),
            (Phase::CreatingFile, Event::SaveFileNotCreated { reason }) => self.failing(
                InstallFailure::SaveFileNotCreated { reason },
            ),
            (Phase::Streaming, Event::ChunkStored { len }) => (
                Pipeline { tracker: self.tracker.advanced(len), ..self },
                ReactionModel {
                    progress: self.tracker.announcement(len),
                    failure: None,
                    remove_save_file: false,
                    next: NextModel::ReadChunk,
                },
            ),
            (Phase::Streaming, Event::ChunkNotStored { reason }) => self.failing(
                InstallFailure::WriteFailed { reason },
            ),
            (Phase::Streaming, Event::StreamBroken { reason }) => self.failing(
                InstallFailure::StreamInterrupted { reason },
            ),
            (Phase::Streaming, Event::StreamEnded) => if supported(self.extension@) {
                (
                    self.moved_to(Phase::Opening),
                    ReactionModel {
                        progress: Some(InstallProgress { progress: 99 }),
                        failure: None,
                        remove_save_file: false,
                        next: NextModel::OpenArchive,
                    },
                )
            } else {
                (
                    self.moved_to(Phase::Failed),
                    ReactionModel {
                        progress: Some(InstallProgress { progress: 99 }),
                        failure: Some(
                            InstallFailure::UnsupportedFormat { extension: self.extension },
                        ),
                        remove_save_file: true,
                        next: NextModel::Stop,
                    },
                )
            },
            (Phase::Opening, Event::ArchiveOpened) => (
                self.moved_to(Phase::Extracting),
                proceed(NextModel::Extract),
            ),
            (Phase::Opening, Event::ArchiveNotOpened { reason }) => self.failing(
                InstallFailure::ArchiveNotOpened { reason },
            ),
            (Phase::Extracting, Event::Extracted) => self.registration(true),
            (Phase::Extracting, Event::ExtractionFailed { reason }) => self.failing(
                InstallFailure::ExtractionFailed { reason },
            ),
            (Phase::Registering, Event::RegistryWritten) => self.registration(false),
            (Phase::Registering, Event::RegistryNotWritten { reason }) => self.failing(
                InstallFailure::RegistryWriteFailed { reason },
            ),
            (Phase::Linking, Event::ShortcutCreated) => (
                self.moved_to(Phase::Finished),
                complete(),
            ),
            (Phase::Linking, Event::ShortcutNotCreated { reason }) => self.failing(
                InstallFailure::ShortcutCreationFailed { reason },
            ),
            _ => (self, proceed(NextModel::Nothing)),
        }
    }

    /// The state after a report.
    pub open spec fn after(self, event: Event) -> Pipeline {
        self.outcome(event).0
    }

    /// The answer to a report.
    pub open spec fn reaction(self, event: Event) -> ReactionModel {
        self.outcome(event).1
    }

    /// The byte count still fits after the chunk that the report speaks of.
    pub open spec fn admits(self, event: Event) -> bool {
        match event {
            Event::ChunkStored { len } => self.phase == Phase::Streaming ==> self.tracker.downloaded
                + len <= u64::MAX,
            _ => true,
        }
    }

    /// Starts a run for a package whose save path has the given extension,
    /// already in lowercase.
    pub fn new(extension: String, setting: Option<Setting>) -> (pipeline: Pipeline)
        ensures
            pipeline == Pipeline::started(extension, setting),
            pipeline.wf(),
    {
        let (reg, short_cut) = match setting {
            Some(s) => (s.reg, s.short_cut),
            None => (None, None),
        };
        Pipeline {
            phase: Phase::Fetching,
            tracker: ProgressTracker::new(None),
            extension,
            reg,
            short_cut,
        }
    }

    /// Starts a run for the package saved at `save_path`: the format test
    /// will look at the extension of that path, without regard to case.
    pub fn for_package(save_path: &str, setting: Option<Setting>) -> (pipeline: Pipeline)
        ensures
            pipeline == Pipeline::started(pipeline.extension, setting),
            pipeline.extension@ == extension_of_path(save_path@),
            pipeline.wf(),
    {
        Pipeline::new(package_extension(save_path), setting)
    }

    /// Ends the run on a failure.
    fn give_up(&mut self, failure: InstallFailure) -> (reaction: Reaction)
        ensures
            *final(self) == old(self).moved_to(Phase::Failed),
            reaction@ == fail(failure),
    {
        self.phase = Phase::Failed;
        Reaction { progress: None, failure: Some(failure), remove_save_file: true, next: Next::Stop }
    }

    /// Moves on to another phase and its piece of work.
    fn move_on(&mut self, phase: Phase, next: Next) -> (reaction: Reaction)
        ensures
            *final(self) == old(self).moved_to(phase),
            reaction@ == proceed(next@),
    {
        self.phase = phase;
        Reaction { progress: None, failure: None, remove_save_file: false, next }
    }

    /// Ends the run in success.
    fn wrap_up(&mut self) -> (reaction: Reaction)
        ensures
            *final(self) == old(self).moved_to(Phase::Finished),
            reaction@ == complete(),
    {
        self.phase = Phase::Finished;
        Reaction {
            progress: Some(InstallProgress { progress: INSTALL_COMPLETE }),
            failure: None,
            remove_save_file: true,
            next: Next::Stop,
        }
    }

    /// Takes up what follows the unpacking or the registry writer.
    fn register(&mut self, registry_due: bool) -> (reaction: Reaction)
        ensures
            *final(self) == old(self).registration(registry_due).0,
            reaction@ == old(self).registration(registry_due).1,
    {
        if registry_due {
            let plan = match &self.reg {
                Some(reg) => Some(registry_plan(reg)),
                None => None,
            };
            if let Some(plan) = plan {
                return self.move_on(Phase::Registering, Next::WriteRegistry(plan));
            }
        }
        let plan = match &self.short_cut {
            Some(short_cut) => Some(shortcut_plan(short_cut)),
            None => None,
        };
        match plan {
            Some(plan) => self.move_on(Phase::Linking, Next::CreateShortcut(plan)),
            None => self.wrap_up(),
        }
    }

    /// Takes a report from the caller, moves the run on and answers with
    /// what to announce and what to do next.
    pub fn step(&mut self, event: Event) -> (reaction: Reaction)
        requires
            old(self).wf(),
            old(self).admits(event),
        ensures
            final(self).wf(),
            *final(self) == old(self).after(event),
            reaction@ == old(self).reaction(event),
    {
        match self.phase {
            Phase::Fetching => match event {
                Event::FetchFailed => self.give_up(InstallFailure::FetchFailed),
                Event::FetchStarted { content_length } => {
                    self.tracker = ProgressTracker::new(content_length);
                    self.move_on(Phase::CreatingFile, Next::CreateSaveFile)
                },
                _ => Pipeline::idle(),
            },
            Phase::CreatingFile => match event {
                Event::SaveFileCreated => self.move_on(Phase::Streaming, Next::ReadChunk),
                Event::SaveFileNotCreated { reason } => self.give_up(
                    InstallFailure::SaveFileNotCreated { reason },
                ),
                _ => Pipeline::idle(),
            },
            Phase::Streaming => match event {
                Event::ChunkStored { len } => {
                    let progress = self.tracker.record(len);
                    Reaction {
                        progress,
                        failure: None,
                        remove_save_file: false,
                        next: Next::ReadChunk,
                    }
                },
                Event::ChunkNotStored { reason } => self.give_up(
                    InstallFailure::WriteFailed { reason },
                ),
                Event::StreamBroken { reason } => self.give_up(
                    InstallFailure::StreamInterrupted { reason },
                ),
                Event::StreamEnded => {
                    let progress = Some(InstallProgress { progress: DOWNLOAD_COMPLETE });
                    if is_supported_format(&self.extension) {
                        self.phase = Phase::Opening;
                        Reaction {
                            progress,
                            failure: None,
                            remove_save_file: false,
                            next: Next::OpenArchive,
                        }
                    } else {
                        self.phase = Phase::Failed;
                        Reaction {
                            progress,
                            failure: Some(
                                InstallFailure::UnsupportedFormat {
                                    extension: self.extension.clone(),
                                },
                            ),
                            remove_save_file: true,
                            next: Next::Stop,
                        }
                    }
                },
                _ => Pipeline::idle(),
            },
            Phase::Opening => match event {
                Event::ArchiveOpened => self.move_on(Phase::Extracting, Next::Extract),
                Event::ArchiveNotOpened { reason } => self.give_up(
                    InstallFailure::ArchiveNotOpened { reason },
                ),
                _ => Pipeline::idle(),
            },
            Phase::Extracting => match event {
                Event::Extracted => self.register(true),
                Event::ExtractionFailed { reason } => self.give_up(
                    InstallFailure::ExtractionFailed { reason },
                ),
                _ => Pipeline::idle(),
            },
            Phase::Registering => match event {
                Event::RegistryWritten => self.register(false),
                Event::RegistryNotWritten { reason } => self.give_up(
                    InstallFailure::RegistryWriteFailed { reason },
                ),
                _ => Pipeline::idle(),
            },
            Phase::Linking => match event {
                Event::ShortcutCreated => self.wrap_up(),
                Event::ShortcutNotCreated { reason } => self.give_up(
                    InstallFailure::ShortcutCreationFailed { reason },
                ),
                _ => Pipeline::idle(),
            },
            Phase::Finished => Pipeline::idle(),
            Phase::Failed => Pipeline::idle(),
        }
    }

    /// The answer to a report that the phase does not wait for.
    fn idle() -> (reaction: Reaction)
        ensures
            reaction@ == proceed(NextModel::Nothing),
    {
        Reaction { progress: None, failure: None, remove_save_file: false, next: Next::Nothing }
    }
}

} // verus!
