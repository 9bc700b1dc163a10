//! Restoring a stored archive to a device.
//!
//! A restore logs in, sends the archive and, over LuCI, asks the device to
//! reboot; over ubus the device reboots by itself. The session names one
//! request after the other; the caller sends each and reports what happened.
//! The archive is sent as it was read, and nothing is tried twice. A reboot
//! request that fails after the archive was accepted is told apart from a
//! failed transfer.

use vstd::prelude::*;
use vstd::string::*;
use crate::json::{Json, JsonView};
use crate::models::{Device, DeviceView};
use crate::session::{
    get_luci_session, login_call_of, luci_auth, luci_auth_of, luci_request, luci_request_of,
    luci_token_of, session_token, ubus_call, ubus_login, ubus_request_of, ubus_token_of,
    AuthError, HttpBody, HttpBodyView, HttpMethod, HttpRequest, HttpRequestView, RpcArgs,
    RpcArgsView, RpcCallView, ARCHIVE_FIELD, LUCI_REBOOT_PATH, LUCI_RESTORE_PATH,
};

verus! {

/// Why a restore failed.
#[derive(Debug)]
pub enum RestoreError {
    /// The archive of the backup could not be read.
    MissingArchive { cause: String },
    /// The login request could not be carried out.
    LoginFailed { cause: String },
    /// The device granted no session.
    Auth(AuthError),
    /// The archive could not be sent.
    TransferFailed { cause: String },
    /// The device took the archive, but the reboot could not be requested:
    /// the device is restored and not rebooted.
    ActivationFailed { cause: String },
    /// A report did not fit the request it answers.
    UnexpectedEvent,
}

/// What a [`RestoreError`] holds, as plain text.
pub enum RestoreErrorView {
    MissingArchive { cause: Seq<char> },
    LoginFailed { cause: Seq<char> },
    Auth(AuthError),
    TransferFailed { cause: Seq<char> },
    ActivationFailed { cause: Seq<char> },
    UnexpectedEvent,
}

impl View for RestoreError {
    type V = RestoreErrorView;

    open spec fn view(&self) -> RestoreErrorView {
        match self {
            RestoreError::MissingArchive { cause } => RestoreErrorView::MissingArchive {
                cause: cause@,
            },
            RestoreError::LoginFailed { cause } => RestoreErrorView::LoginFailed { cause: cause@ },
            RestoreError::Auth(e) => RestoreErrorView::Auth(*e),
            RestoreError::TransferFailed { cause } => RestoreErrorView::TransferFailed {
                cause: cause@,
            },
            RestoreError::ActivationFailed { cause } => RestoreErrorView::ActivationFailed {
                cause: cause@,
            },
            RestoreError::UnexpectedEvent => RestoreErrorView::UnexpectedEvent,
        }
    }
}

/// What happened to the request that was named last.
#[derive(Debug)]
pub enum RestoreEvent {
    /// The device answered the login with this document.
    Json(Json),
    /// The request was sent and answered.
    Delivered,
    /// The request could not be carried out.
    Failed(String),
}

/// What to do next in a restore.
#[derive(Debug)]
pub enum RestoreStep {
    /// Send the request and report what happened.
    Send(HttpRequest),
    /// The restore is complete.
    Done,
    /// The restore failed.
    Fail(RestoreError),
}

/// What a [`RestoreStep`] holds, as plain values.
pub enum RestoreStepView {
    Send(HttpRequestView),
    Done,
    Fail(RestoreErrorView),
}

impl View for RestoreStep {
    type V = RestoreStepView;

    open spec fn view(&self) -> RestoreStepView {
        match self {
            RestoreStep::Send(request) => RestoreStepView::Send(request@),
            RestoreStep::Done => RestoreStepView::Done,
            RestoreStep::Fail(error) => RestoreStepView::Fail(error@),
        }
    }
}

/// How far a restore has come.
#[derive(Clone, Copy, Debug, PartialEq, Eq, Structural)]
pub enum RestorePhase {
    /// The login was named; its answer is awaited.
    Authenticating,
    /// The transfer of the archive was named.
    Transferring,
    /// The reboot was named.
    Activating,
    /// Nothing more is to be done.
    Finished,
}

/// A restore in progress.
#[derive(Debug)]
pub struct RestoreSession {
    device: Device,
    use_ubus: bool,
    archive: Vec<u8>,
    token: String,
    phase: RestorePhase,
}

/// What a [`RestoreSession`] holds, as plain values.
pub struct RestoreSessionView {
    pub device: DeviceView,
    pub use_ubus: bool,
    /// The archive, until it has been handed to the transfer.
    pub archive: Seq<u8>,
    /// The session, once it has been granted.
    pub token: Seq<char>,
    pub phase: RestorePhase,
}

/// The ubus call that restores `archive` within the session `token`.
pub open spec fn ubus_restore_of(ip: Seq<char>, token: Seq<char>, archive: Seq<u8>) -> HttpRequestView {
    ubus_request_of(
        ip,
        RpcCallView {
            id: 2,
            session: token,
            object: "system"@,
            method: "restore"@,
            args: RpcArgsView::Restore { backup: archive },
        },
    )
}

/// The LuCI request that restores `archive` within the session `token`.
pub open spec fn luci_restore_of(ip: Seq<char>, token: Seq<char>, archive: Seq<u8>) -> HttpRequestView {
    luci_request_of(
        ip,
        HttpMethod::Post,
        LUCI_RESTORE_PATH@,
        token,
        HttpBodyView::Multipart { field: ARCHIVE_FIELD@, data: archive },
    )
}

/// The LuCI request that reboots the device within the session `token`.
pub open spec fn luci_reboot_of(ip: Seq<char>, token: Seq<char>) -> HttpRequestView {
    luci_request_of(ip, HttpMethod::Post, LUCI_REBOOT_PATH@, token, HttpBodyView::Empty)
}

/// The session in the answer to a login of the chosen protocol.
pub open spec fn granted_token(use_ubus: bool, response: JsonView) -> Option<Seq<char>> {
    if use_ubus {
        ubus_token_of(response)
    } else {
        luci_token_of(response)
    }
}

/// The error of a login answer without a session.
pub open spec fn missing_token(use_ubus: bool) -> AuthError {
    if use_ubus {
        AuthError::MissingSessionToken
    } else {
        AuthError::MissingLuciToken
    }
}

/// A session that has come to its end.
pub open spec fn finished(s: RestoreSessionView) -> RestoreSessionView {
    RestoreSessionView { phase: RestorePhase::Finished, ..s }
}

/// The session and the step that follow the report `event`.
pub open spec fn restore_next(s: RestoreSessionView, event: RestoreEvent) -> (
    RestoreSessionView,
    RestoreStepView,
) {
    match s.phase {
        RestorePhase::Authenticating => match event {
            RestoreEvent::Json(response) => match granted_token(s.use_ubus, response@) {
                Some(token) => (
                    RestoreSessionView {
                        archive: Seq::empty(),
                        token,
                        phase: RestorePhase::Transferring,
                        ..s
                    },
                    RestoreStepView::Send(
                        if s.use_ubus {
                            ubus_restore_of(s.device.ip, token, s.archive)
                        } else {
                            luci_restore_of(s.device.ip, token, s.archive)
                        },
                    ),
                ),
                None => (
                    finished(s),
                    RestoreStepView::Fail(RestoreErrorView::Auth(missing_token(s.use_ubus))),
                ),
            },
            RestoreEvent::Failed(cause) => (
                finished(s),
                RestoreStepView::Fail(RestoreErrorView::LoginFailed { cause: cause@ }),
            ),
            RestoreEvent::Delivered => (
                finished(s),
                RestoreStepView::Fail(RestoreErrorView::UnexpectedEvent),
            ),
        },
        RestorePhase::Transferring => match event {
            RestoreEvent::Delivered => if s.use_ubus {
                (finished(s), RestoreStepView::Done)
            } else {
                (
                    RestoreSessionView { phase: RestorePhase::Activating, ..s },
                    RestoreStepView::Send(luci_reboot_of(s.device.ip, s.token)),
                )
            },
            RestoreEvent::Failed(cause) => (
                finished(s),
                RestoreStepView::Fail(RestoreErrorView::TransferFailed { cause: cause@ }),
            ),
            RestoreEvent::Json(_) => (
                finished(s),
                RestoreStepView::Fail(RestoreErrorView::UnexpectedEvent),
            ),
        },
        RestorePhase::Activating => match event {
            RestoreEvent::Delivered => (finished(s), RestoreStepView::Done),
            RestoreEvent::Failed(cause) => (
                finished(s),
                RestoreStepView::Fail(RestoreErrorView::ActivationFailed { cause: cause@ }),
            ),
            RestoreEvent::Json(_) => (
                finished(s),
                RestoreStepView::Fail(RestoreErrorView::UnexpectedEvent),
            ),
        },
        RestorePhase::Finished => (s, RestoreStepView::Fail(RestoreErrorView::UnexpectedEvent)),
    }
}

/// The bytes of an archive that a request carries, if it carries one.
pub open spec fn payload_of(request: HttpRequestView) -> Option<Seq<u8>> {
    match request.body {
        HttpBodyView::Rpc(call) => match call.args {
            RpcArgsView::Restore { backup } => Some(backup),
            _ => None,
        },
        HttpBodyView::Multipart { data, .. } => Some(data),
        _ => None,
    }
}

/// The request that follows a granted login carries the archive of the
/// session, byte for byte, whatever the protocol.
pub proof fn lemma_archive_sent_unchanged(s: RestoreSessionView, response: Json)
    requires
        s.phase == RestorePhase::Authenticating,
        granted_token(s.use_ubus, response@) is Some,
    ensures
        restore_next(s, RestoreEvent::Json(response)).1 is Send,
        payload_of(restore_next(s, RestoreEvent::Json(response)).1->Send_0) == Some(s.archive),
{
}

/// No request but the transfer carries an archive, and once a session has
/// named a failure or its end it names no further request.
pub proof fn lemma_restore_ends(s: RestoreSessionView, event: RestoreEvent)
    ensures
        s.phase != RestorePhase::Authenticating && restore_next(s, event).1 is Send ==> payload_of(
            restore_next(s, event).1->Send_0,
        ) is None,
        !(restore_next(s, event).1 is Send) ==> restore_next(s, event).0.phase
            == RestorePhase::Finished,
        s.phase == RestorePhase::Finished ==> !(restore_next(s, event).1 is Send),
{
}

impl View for RestoreSession {
    type V = RestoreSessionView;

    closed spec fn view(&self) -> RestoreSessionView {
        RestoreSessionView {
            device: self.device@,
            use_ubus: self.use_ubus,
            archive: self.archive@,
            token: self.token@,
            phase: self.phase,
        }
    }
}

impl RestoreSession {
    /// Starts the restore of `archive` to `device` and names the login.
    pub fn start(device: Device, use_ubus: bool, archive: Vec<u8>) -> (r: (
        RestoreSession,
        HttpRequest,
    ))
        ensures
            r.0@ == (RestoreSessionView {
                device: device@,
                use_ubus,
                archive: archive@,
                token: Seq::empty(),
                phase: RestorePhase::Authenticating,
            }),
            r.1@ == if use_ubus {
                ubus_request_of(device.ip@, login_call_of(device.user@, device.password@))
            } else {
                luci_auth_of(device@)
            },
    {
        let login = if use_ubus {
            ubus_login(&device)
        } else {
            luci_auth(&device)
        };
        let session = RestoreSession {
            device,
            use_ubus,
            archive,
            token: String::new(),
            phase: RestorePhase::Authenticating,
        };
        (session, login)
    }

    /// How far the restore has come.
    pub fn phase(&self) -> (r: RestorePhase)
        ensures
            r == self@.phase,
    {
        self.phase
    }

    /// Takes the report on the request that was named last and names what
    /// follows.
    pub fn advance(&mut self, event: RestoreEvent) -> (r: RestoreStep)
        ensures
            final(self)@ == restore_next(old(self)@, event).0,
            r@ == restore_next(old(self)@, event).1,
    {
        match self.phase {
            RestorePhase::Authenticating => {
                self.phase = RestorePhase::Finished;
                match event {
                    RestoreEvent::Json(response) => {
                        let granted = if self.use_ubus {
                            session_token(&response)
                        } else {
                            get_luci_session(&response)
                        };
                        match granted {
                            Ok(token) => {
                                let mut archive: Vec<u8> = Vec::new();
                                std::mem::swap(&mut self.archive, &mut archive);
                                let request = if self.use_ubus {
                                    ubus_call(
                                        &self.device,
                                        2,
                                        token.as_str(),
                                        "system",
                                        "restore",
                                        RpcArgs::Restore { backup: archive },
                                    )
                                } else {
                                    luci_request(
                                        &self.device,
                                        HttpMethod::Post,
                                        LUCI_RESTORE_PATH,
                                        token.as_str(),
                                        HttpBody::Multipart {
                                            field: String::from_str(ARCHIVE_FIELD),
                                            data: archive,
                                        },
                                    )
                                };
                                self.token = token;
                                self.phase = RestorePhase::Transferring;
                                RestoreStep::Send(request)
                            },
                            Err(e) => RestoreStep::Fail(RestoreError::Auth(e)),
                        }
                    },
                    RestoreEvent::Failed(cause) => RestoreStep::Fail(
                        RestoreError::LoginFailed { cause },
                    ),
                    RestoreEvent::Delivered => RestoreStep::Fail(RestoreError::UnexpectedEvent),
                }
            },
            RestorePhase::Transferring => {
                self.phase = RestorePhase::Finished;
                match event {
                    RestoreEvent::Delivered => {
                        if self.use_ubus {
                            RestoreStep::Done
                        } else {
                            self.phase = RestorePhase::Activating;
                            RestoreStep::Send(
                                luci_request(
                                    &self.device,
                                    HttpMethod::Post,
                                    LUCI_REBOOT_PATH,
                                    self.token.as_str(),
                                    HttpBody::Empty,
                                ),
                            )
                        }
                    },
                    RestoreEvent::Failed(cause) => RestoreStep::Fail(
                        RestoreError::TransferFailed { cause },
                    ),
                    RestoreEvent::Json(_) => RestoreStep::Fail(RestoreError::UnexpectedEvent),
                }
            },
            RestorePhase::Activating => {
                self.phase = RestorePhase::Finished;
                match event {
                    RestoreEvent::Delivered => RestoreStep::Done,
                    RestoreEvent::Failed(cause) => RestoreStep::Fail(
                        RestoreError::ActivationFailed { cause },
                    ),
                    RestoreEvent::Json(_) => RestoreStep::Fail(RestoreError::UnexpectedEvent),
                }
            },
            RestorePhase::Finished => RestoreStep::Fail(RestoreError::UnexpectedEvent),
        }
    }
}

} // verus!
