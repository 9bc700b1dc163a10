//! Making a backup of a device.
//!
//! Over ubus the configuration is collected section by section through a
//! remote shell and packed into an archive. Over LuCI the device builds the
//! archive itself and hands it out in one answer, which is kept as it is.
//! The session names one step after the other; the caller carries each out
//! and reports what happened. A session ends by naming the archive to store
//! or the failure.

use vstd::prelude::*;
use vstd::string::*;
use crate::archive::{encoded, ArchiveError};
use crate::collect::{
    captured, collected, command_of, entry_of, lemma_all_sections_failing, status_of,
    CollectStep, Collector, CommandOutcome, SectionStatus, SECTION_COUNT, STEP_COUNT,
};
use crate::json::Json;
use crate::models::{Device, DeviceView};
use crate::session::{
    get_luci_session, luci_auth, luci_auth_of, luci_request, luci_request_of, luci_token_of,
    AuthError, HttpBody, HttpBodyView, HttpMethod, HttpRequest, LUCI_BACKUP_PATH,
};
use crate::text::catenate;

verus! {

/// What follows the address of a device to name its shell port.
pub const SHELL_PORT: &'static str = ":22";

/// The method of a backup made over ubus, as the catalog records it.
pub const METHOD_UBUS: &'static str = "ubus";

/// The method of a backup made over LuCI, as the catalog records it.
pub const METHOD_LUCI: &'static str = "luci";

/// Why no archive was obtained.
#[derive(Debug)]
pub enum CollectionError {
    /// The remote shell could not be opened.
    ShellFailed { cause: String },
    /// A command could not be run to its end.
    CommandFailed { cause: String },
    /// The login request could not be carried out.
    LoginFailed { cause: String },
    /// The device granted no session.
    Auth(AuthError),
    /// The archive could not be fetched.
    DownloadFailed { cause: String },
    /// The archive could not be written.
    Archive(ArchiveError),
    /// A report did not fit the step it answers.
    UnexpectedEvent,
}

/// What happened to the step that was named last.
#[derive(Debug)]
pub enum BackupEvent {
    /// The remote shell is open.
    ShellOpened,
    /// The command gave this outcome.
    Command(CommandOutcome),
    /// The device answered the login with this document.
    Json(Json),
    /// The device answered with these bytes.
    Body(Vec<u8>),
    /// The step could not be carried out.
    Failed(String),
}

/// What to do next in a backup.
#[derive(Debug)]
pub enum BackupStep {
    /// Open a remote shell at `address` as `username`.
    OpenShell { address: String, username: String, password: String },
    /// Run `command` in the shell and report its outcome.
    Run { command: String },
    /// Send the login and report the document that answers it.
    Login(HttpRequest),
    /// Send the request and report the bytes that answer it.
    Download(HttpRequest),
    /// The archive is complete: store it, and record a backup made by `method`.
    Store { archive: Vec<u8>, method: String },
    /// The backup failed.
    Fail(CollectionError),
}

/// What became of a step of the collection.
#[derive(Clone, Copy, Debug, PartialEq, Eq, Structural)]
pub struct SectionReport {
    pub step: usize,
    pub status: SectionStatus,
}

/// What a report to the session brought about.
#[derive(Debug)]
pub struct BackupProgress {
    /// What became of the command that was reported, if one was.
    pub report: Option<SectionReport>,
    /// What to do next.
    pub step: BackupStep,
}

enum BackupPhase {
    OpeningShell,
    Collecting(Collector),
    Authenticating,
    Downloading,
    Finished,
}

/// How far a backup has come.
pub enum BackupPhaseView {
    /// The shell was named; it is not open yet.
    OpeningShell,
    /// Commands are run; these outcomes were reported so far.
    Collecting { reported: Seq<CommandOutcome> },
    /// The login was named; its answer is awaited.
    Authenticating,
    /// The download was named; its answer is awaited.
    Downloading,
    /// Nothing more is to be done.
    Finished,
}

/// A backup in progress.
pub struct BackupSession {
    device: Device,
    phase: BackupPhase,
}

/// What a [`BackupSession`] holds, as plain values.
pub struct BackupSessionView {
    pub device: DeviceView,
    pub phase: BackupPhaseView,
}

/// The address of the shell of a device at `ip`.
pub open spec fn shell_address_of(ip: Seq<char>) -> Seq<char> {
    ip + SHELL_PORT@
}

/// Whether `step` opens the shell of `device`.
pub open spec fn opens_shell(step: BackupStep, device: DeviceView) -> bool {
    step matches BackupStep::OpenShell { address, username, password } && address@
        == shell_address_of(device.ip) && username@ == device.user && password@ == device.password
}

/// Whether `step` is the store step for the archive `bytes` of a backup
/// made by `method`.
pub open spec fn stores(step: BackupStep, bytes: Seq<u8>, method: Seq<char>) -> bool {
    step matches BackupStep::Store { archive, method: m } && archive@ == bytes && m@ == method
}

/// Whether `progress` names the failure of a session over an event that does
/// not fit.
pub open spec fn rejects(progress: BackupProgress) -> bool {
    progress.report is None && progress.step matches BackupStep::Fail(
        CollectionError::UnexpectedEvent,
    )
}

/// Whether `after` and `progress` are what follows the report `event` to the
/// session `before`.
pub open spec fn backup_follows(
    before: BackupSessionView,
    event: BackupEvent,
    after: BackupSessionView,
    progress: BackupProgress,
) -> bool {
    &&& after.device == before.device
    &&& match before.phase {
        BackupPhaseView::OpeningShell => match event {
            BackupEvent::ShellOpened => {
                &&& after.phase == (BackupPhaseView::Collecting { reported: Seq::empty() })
                &&& progress.report is None
                &&& progress.step matches BackupStep::Run { command } && command@ == command_of(0)
            },
            BackupEvent::Failed(cause) => {
                &&& after.phase is Finished
                &&& progress.report is None
                &&& progress.step matches BackupStep::Fail(CollectionError::ShellFailed { cause: c })
                    && c@ == cause@
            },
            _ => after.phase is Finished && rejects(progress),
        },
        BackupPhaseView::Collecting { reported } => match event {
            BackupEvent::Command(outcome) => {
                &&& progress.report == Some(
                    SectionReport { step: reported.len() as usize, status: status_of(outcome) },
                )
                &&& if reported.len() + 1 < STEP_COUNT {
                    &&& after.phase == (BackupPhaseView::Collecting {
                        reported: reported.push(outcome),
                    })
                    &&& progress.step matches BackupStep::Run { command } && command@
                        == command_of(reported.len() + 1 as int)
                } else {
                    &&& after.phase is Finished
                    &&& match encoded(collected(reported.push(outcome))) {
                        Some(bytes) => stores(progress.step, bytes, METHOD_UBUS@),
                        None => progress.step matches BackupStep::Fail(
                            CollectionError::Archive(e),
                        ) && e is Write,
                    }
                }
            },
            BackupEvent::Failed(cause) => {
                &&& after.phase is Finished
                &&& progress.report is None
                &&& progress.step matches BackupStep::Fail(
                    CollectionError::CommandFailed { cause: c },
                ) && c@ == cause@
            },
            _ => after.phase is Finished && rejects(progress),
        },
        BackupPhaseView::Authenticating => match event {
            BackupEvent::Json(response) => {
                &&& progress.report is None
                &&& match luci_token_of(response@) {
                    Some(token) => {
                        &&& after.phase is Downloading
                        &&& progress.step matches BackupStep::Download(request) && request@
                            == luci_request_of(
                            before.device.ip,
                            HttpMethod::Get,
                            LUCI_BACKUP_PATH@,
                            token,
                            HttpBodyView::Empty,
                        )
                    },
                    None => {
                        &&& after.phase is Finished
                        &&& progress.step matches BackupStep::Fail(
                            CollectionError::Auth(AuthError::MissingLuciToken),
                        )
                    },
                }
            },
            BackupEvent::Failed(cause) => {
                &&& after.phase is Finished
                &&& progress.report is None
                &&& progress.step matches BackupStep::Fail(CollectionError::LoginFailed { cause: c })
                    && c@ == cause@
            },
            _ => after.phase is Finished && rejects(progress),
        },
        BackupPhaseView::Downloading => match event {
            BackupEvent::Body(bytes) => {
                &&& after.phase is Finished
                &&& progress.report is None
                &&& progress.step matches BackupStep::Store { archive, method } && archive@
                    == bytes@ && method@ == METHOD_LUCI@
            },
            BackupEvent::Failed(cause) => {
                &&& after.phase is Finished
                &&& progress.report is None
                &&& progress.step matches BackupStep::Fail(
                    CollectionError::DownloadFailed { cause: c },
                ) && c@ == cause@
            },
            _ => after.phase is Finished && rejects(progress),
        },
        BackupPhaseView::Finished => after.phase is Finished && rejects(progress),
    }
}

/// What a download hands out is stored as it came.
pub proof fn lemma_download_kept_unchanged(
    before: BackupSessionView,
    bytes: Vec<u8>,
    after: BackupSessionView,
    progress: BackupProgress,
)
    requires
        before.phase is Downloading,
        backup_follows(before, BackupEvent::Body(bytes), after, progress),
    ensures
        progress.step is Store,
        progress.step->Store_archive@ == bytes@,
        progress.step->Store_method@ == METHOD_LUCI@,
        after.phase is Finished,
{
}

/// When every section failed, the collection still ends in the store step
/// wherever the archive can be written, and the archive it stores holds
/// nothing, or only the description of the device.
pub proof fn lemma_failing_sections_store_little(
    before: BackupSessionView,
    outcome: CommandOutcome,
    after: BackupSessionView,
    progress: BackupProgress,
)
    requires
        before.phase is Collecting,
        before.phase->reported.len() == SECTION_COUNT,
        forall|i: int| 0 <= i < SECTION_COUNT ==> !captured(#[trigger] before.phase->reported[i]),
        backup_follows(before, BackupEvent::Command(outcome), after, progress),
    ensures
        match encoded(
            if captured(outcome) {
                seq![entry_of(5, outcome)]
            } else {
                Seq::empty()
            },
        ) {
            Some(bytes) => stores(progress.step, bytes, METHOD_UBUS@),
            None => progress.step is Fail,
        },
        after.phase is Finished,
{
    let outcomes = before.phase->reported.push(outcome);
    assert forall|i: int| 0 <= i < SECTION_COUNT implies !captured(#[trigger] outcomes[i]) by {
        assert(outcomes[i] == before.phase->reported[i]);
    }
    assert(outcomes[5] == outcome);
    lemma_all_sections_failing(outcomes);
}

/// Ends a collection with what building its archive gave: a finished
/// archive is to be stored as a backup made over ubus, a failure to write
/// it is the failure of the backup.
pub fn conclude_collection(archive: Result<Vec<u8>, ArchiveError>) -> (r: BackupStep)
    ensures
        match archive {
            Ok(bytes) => stores(r, bytes@, METHOD_UBUS@),
            Err(e) => r matches BackupStep::Fail(CollectionError::Archive(x)) && x == e,
        },
{
    match archive {
        Ok(bytes) => BackupStep::Store { archive: bytes, method: String::from_str(METHOD_UBUS) },
        Err(e) => BackupStep::Fail(CollectionError::Archive(e)),
    }
}

impl View for BackupSession {
    type V = BackupSessionView;

    closed spec fn view(&self) -> BackupSessionView {
        BackupSessionView {
            device: self.device@,
            phase: match self.phase {
                BackupPhase::OpeningShell => BackupPhaseView::OpeningShell,
                BackupPhase::Collecting(collector) => BackupPhaseView::Collecting {
                    reported: collector.reported(),
                },
                BackupPhase::Authenticating => BackupPhaseView::Authenticating,
                BackupPhase::Downloading => BackupPhaseView::Downloading,
                BackupPhase::Finished => BackupPhaseView::Finished,
            },
        }
    }
}

impl BackupSession {
    /// Starts a backup of `device` and names its first step: over ubus the
    /// remote shell is to be opened, over LuCI the login is to be sent.
    pub fn start(device: Device, use_ubus: bool) -> (r: (BackupSession, BackupStep))
        ensures
            r.0@.device == device@,
            if use_ubus {
                r.0@.phase is OpeningShell && opens_shell(r.1, device@)
            } else {
                r.0@.phase is Authenticating && (r.1 matches BackupStep::Login(request) && request@
                    == luci_auth_of(device@))
            },
    {
        if use_ubus {
            let step = BackupStep::OpenShell {
                address: catenate(device.ip.as_str(), SHELL_PORT),
                username: device.user.clone(),
                password: device.password.clone(),
            };
            (BackupSession { device, phase: BackupPhase::OpeningShell }, step)
        } else {
            let step = BackupStep::Login(luci_auth(&device));
            (BackupSession { device, phase: BackupPhase::Authenticating }, step)
        }
    }

    /// Whether the session has named its last step.
    pub fn is_finished(&self) -> (r: bool)
        ensures
            r == self@.phase is Finished,
    {
        match self.phase {
            BackupPhase::Finished => true,
            _ => false,
        }
    }

    /// Takes the report on the step that was named last and names what
    /// follows.
    pub fn advance(&mut self, event: BackupEvent) -> (r: BackupProgress)
        ensures
            backup_follows(old(self)@, event, final(self)@, r),
    {
        let mut phase = BackupPhase::Finished;
        std::mem::swap(&mut self.phase, &mut phase);
        match phase {
            BackupPhase::OpeningShell => match event {
                BackupEvent::ShellOpened => {
                    let (collector, command) = Collector::begin();
                    self.phase = BackupPhase::Collecting(collector);
                    BackupProgress { report: None, step: BackupStep::Run { command } }
                },
                BackupEvent::Failed(cause) => BackupProgress {
                    report: None,
                    step: BackupStep::Fail(CollectionError::ShellFailed { cause }),
                },
                _ => BackupProgress {
                    report: None,
                    step: BackupStep::Fail(CollectionError::UnexpectedEvent),
                },
            },
            BackupPhase::Collecting(collector) => match event {
                BackupEvent::Command(outcome) => {
                    let progress = collector.advance(outcome);
                    let report = Some(
                        SectionReport { step: progress.step, status: progress.status },
                    );
                    match progress.next {
                        CollectStep::Run { collector, command } => {
                            self.phase = BackupPhase::Collecting(collector);
                            BackupProgress { report, step: BackupStep::Run { command } }
                        },
                        CollectStep::Done { archive } => BackupProgress {
                            report,
                            step: conclude_collection(archive),
                        },
                    }
                },
                BackupEvent::Failed(cause) => BackupProgress {
                    report: None,
                    step: BackupStep::Fail(CollectionError::CommandFailed { cause }),
                },
                _ => BackupProgress {
                    report: None,
                    step: BackupStep::Fail(CollectionError::UnexpectedEvent),
                },
            },
            BackupPhase::Authenticating => match event {
                BackupEvent::Json(response) => match get_luci_session(&response) {
                    Ok(token) => {
                        self.phase = BackupPhase::Downloading;
                        BackupProgress {
                            report: None,
                            step: BackupStep::Download(
                                luci_request(
                                    &self.device,
                                    HttpMethod::Get,
                                    LUCI_BACKUP_PATH,
                                    token.as_str(),
                                    HttpBody::Empty,
                                ),
                            ),
                        }
                    },
                    Err(e) => BackupProgress {
                        report: None,
                        step: BackupStep::Fail(CollectionError::Auth(e)),
                    },
                },
                BackupEvent::Failed(cause) => BackupProgress {
                    report: None,
                    step: BackupStep::Fail(CollectionError::LoginFailed { cause }),
                },
                _ => BackupProgress {
                    report: None,
                    step: BackupStep::Fail(CollectionError::UnexpectedEvent),
                },
            },
            BackupPhase::Downloading => match event {
                BackupEvent::Body(bytes) => BackupProgress {
                    report: None,
                    step: BackupStep::Store {
                        archive: bytes,
                        method: String::from_str(METHOD_LUCI),
                    },
                },
                BackupEvent::Failed(cause) => BackupProgress {
                    report: None,
                    step: BackupStep::Fail(CollectionError::DownloadFailed { cause }),
                },
                _ => BackupProgress {
                    report: None,
                    step: BackupStep::Fail(CollectionError::UnexpectedEvent),
                },
            },
            BackupPhase::Finished => BackupProgress {
                report: None,
                step: BackupStep::Fail(CollectionError::UnexpectedEvent),
            },
        }
    }
}

} // verus!
