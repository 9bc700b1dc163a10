//! The operations of the tool, as far as they decide anything: which device
//! and which backup an operation is about, which requests it makes, and what
//! it reports.

use vstd::prelude::*;
use vstd::string::*;
use crate::backup::{opens_shell, BackupSession, BackupStep};
use crate::config::{
    backup_dir_of, CatalogError, CatalogErrorView, ConfigManager, PendingRemoval,
    PendingRemovalView, StorePath,
};
use crate::json::{element_of, member_of, text_of, unsigned_of, Json, JsonView};
use crate::models::{find, BackupInfo, BackupMeta, Device, DeviceView};
use crate::registry::Config;
use crate::restore::{RestoreError, RestoreErrorView, RestoreSession, RestoreSessionView, RestorePhase};
use crate::session::{
    login_call_of, luci_auth_of, session_token, ubus_call, ubus_request_of, ubus_token_of,
    AuthError, HttpRequest, RpcArgs, RpcArgsView, RpcCallView,
};
use crate::text::{decimal, decimal_string};

verus! {

/// Why an operation could not be started.
#[derive(Debug)]
pub enum CommandError {
    /// No device is registered under the name.
    DeviceNotFound { name: String },
    /// The catalog of the device does not allow the operation.
    Catalog(CatalogError),
}

/// What a [`CommandError`] holds, as plain text.
pub enum CommandErrorView {
    DeviceNotFound { name: Seq<char> },
    Catalog(CatalogErrorView),
}

impl View for CommandError {
    type V = CommandErrorView;

    open spec fn view(&self) -> CommandErrorView {
        match self {
            CommandError::DeviceNotFound { name } => CommandErrorView::DeviceNotFound {
                name: name@,
            },
            CommandError::Catalog(e) => CommandErrorView::Catalog(e@),
        }
    }
}

/// The message of a lookup of a device that is not registered.
pub open spec fn device_not_found_text(name: Seq<char>) -> Seq<char> {
    "Device '"@ + name + "' not found"@
}

impl CommandError {
    /// The message of the error, for the user.
    pub fn message(&self) -> (r: String)
        ensures
            r@ == match self@ {
                CommandErrorView::DeviceNotFound { name } => device_not_found_text(name),
                CommandErrorView::Catalog(e) => crate::config::message_of(e),
            },
    {
        match self {
            CommandError::DeviceNotFound { name } => {
                let mut m = String::from_str("Device '");
                m.append(name.as_str());
                m.append("' not found");
                m
            },
            CommandError::Catalog(e) => e.message(),
        }
    }
}

/// The device registered under `name`.
pub fn find_device(config: &Config, name: &str) -> (r: Result<Device, CommandError>)
    ensures
        match r {
            Ok(device) => config@.contains_key(name@) && device@ == config@[name@],
            Err(e) => !config@.contains_key(name@) && e@ == (CommandErrorView::DeviceNotFound {
                name: name@,
            }),
        },
{
    match config.get_device(name) {
        Some(device) => Ok(device.clone()),
        None => Err(CommandError::DeviceNotFound { name: String::from_str(name) }),
    }
}

/// Starts a backup of the device registered under `name`: over ubus if
/// `use_ubus`, else over LuCI. The session that is handed out names every
/// further step; its first step comes with it.
pub fn create_backup(config: &Config, name: &str, use_ubus: bool) -> (r: Result<
    (BackupSession, BackupStep),
    CommandError,
>)
    ensures
        match r {
            Ok((session, step)) => {
                &&& config@.contains_key(name@)
                &&& session@.device == config@[name@]
                &&& if use_ubus {
                    session@.phase is OpeningShell && opens_shell(step, config@[name@])
                } else {
                    session@.phase is Authenticating && (step matches BackupStep::Login(request)
                        && request@ == luci_auth_of(config@[name@]))
                }
            },
            Err(e) => !config@.contains_key(name@) && e@ == (CommandErrorView::DeviceNotFound {
                name: name@,
            }),
        },
{
    match find_device(config, name) {
        Ok(device) => Ok(BackupSession::start(device, use_ubus)),
        Err(e) => Err(e),
    }
}

/// What a restore needs before it can start: the device, the record of the
/// backup and the place of its archive.
#[derive(Debug)]
pub struct RestorePlan {
    pub device: Device,
    pub record: BackupInfo,
    pub archive_file: StorePath,
}

/// Prepares the restore of the backup `backup_id` to the device registered
/// under `name`. The device is looked up first, then the backup in the
/// catalog of the device; the archive to read is the one the record names.
pub fn restore_backup(
    manager: &ConfigManager,
    config: &Config,
    meta: &BackupMeta,
    name: &str,
    backup_id: &str,
) -> (r: Result<RestorePlan, CommandError>)
    ensures
        match r {
            Ok(plan) => {
                &&& config@.contains_key(name@)
                &&& plan.device@ == config@[name@]
                &&& find(meta@, backup_id@) == Some(plan.record@)
                &&& plan.archive_file@ == backup_dir_of(name@).push(plan.record@.filename)
            },
            Err(e) => if !config@.contains_key(name@) {
                e@ == (CommandErrorView::DeviceNotFound { name: name@ })
            } else {
                find(meta@, backup_id@) is None && e@ == CommandErrorView::Catalog(
                    CatalogErrorView::NotFound { backup_id: backup_id@, device_name: name@ },
                )
            },
        },
{
    let device = match find_device(config, name) {
        Ok(device) => device,
        Err(e) => {
            return Err(e);
        },
    };
    match meta.get_backup(backup_id) {
        Some(backup) => {
            let archive_file = manager.get_backup_dir(name).join(backup.filename.as_str());
            Ok(RestorePlan { device, record: backup.clone(), archive_file })
        },
        None => Err(CommandError::Catalog(CatalogError::not_found(backup_id, name))),
    }
}

/// Starts the restore that `plan` prepared, given what reading the archive
/// gave: the bytes, or the cause of the failure. An archive that could not
/// be read ends the restore before any request is made.
pub fn begin_restore(plan: RestorePlan, use_ubus: bool, archive: Result<Vec<u8>, String>) -> (r:
    Result<(RestoreSession, HttpRequest), RestoreError>)
    ensures
        match archive {
            Ok(bytes) => r is Ok && r->Ok_0.0@ == (RestoreSessionView {
                device: plan.device@,
                use_ubus,
                archive: bytes@,
                token: Seq::empty(),
                phase: RestorePhase::Authenticating,
            }) && r->Ok_0.1@ == if use_ubus {
                ubus_request_of(
                    plan.device.ip@,
                    login_call_of(plan.device.user@, plan.device.password@),
                )
            } else {
                luci_auth_of(plan.device@)
            },
            Err(cause) => r is Err && r->Err_0@ == (RestoreErrorView::MissingArchive {
                cause: cause@,
            }),
        },
{
    match archive {
        Ok(bytes) => Ok(RestoreSession::start(plan.device, use_ubus, bytes)),
        Err(cause) => Err(RestoreError::MissingArchive { cause }),
    }
}

/// The record of the backup `backup_id` of the device `name`, or the error
/// that names the backup and the device.
pub fn show_backup(meta: &BackupMeta, name: &str, backup_id: &str) -> (r: Result<
    BackupInfo,
    CatalogError,
>)
    ensures
        match find(meta@, backup_id@) {
            Some(record) => r is Ok && r->Ok_0@ == record,
            None => r is Err && r->Err_0@ == (CatalogErrorView::NotFound {
                backup_id: backup_id@,
                device_name: name@,
            }),
        },
{
    match meta.get_backup(backup_id) {
        Some(backup) => Ok(backup.clone()),
        None => Err(CatalogError::not_found(backup_id, name)),
    }
}

/// What a listing of the backups of a device shows.
#[derive(Debug)]
pub enum BackupListing {
    /// The device has no backups; `message` says so.
    Empty { message: String },
    /// The backups of the device in the order of their creation, under `heading`.
    Backups { heading: String, backups: Vec<BackupInfo> },
}

/// The listing of the catalog of the device `name`.
pub fn list_backups(meta: &BackupMeta, name: &str) -> (r: BackupListing)
    ensures
        match r {
            BackupListing::Empty { message } => meta@.len() == 0 && message@
                == "No backups found for device '"@ + name@ + "'"@,
            BackupListing::Backups { heading, backups } => meta@.len() > 0 && heading@
                == "Backups for device '"@ + name@ + "':"@ && backups@.map_values(
                |b: BackupInfo| b@,
            ) == meta@,
        },
{
    if meta.backups.len() == 0 {
        let mut message = String::from_str("No backups found for device '");
        message.append(name);
        message.append("'");
        BackupListing::Empty { message }
    } else {
        let mut heading = String::from_str("Backups for device '");
        heading.append(name);
        heading.append("':");
        let copy = meta.clone();
        BackupListing::Backups { heading, backups: copy.backups }
    }
}

/// Opens the removal of the backup `backup_id` of the device `name`.
pub fn remove_backup(manager: &ConfigManager, meta: &BackupMeta, name: &str, backup_id: &str) -> (r:
    Result<PendingRemoval, CatalogError>)
    ensures
        match find(meta@, backup_id@) {
            Some(record) => r is Ok && r->Ok_0@ == (PendingRemovalView {
                backup_id: backup_id@,
                filename: record.filename,
                file: backup_dir_of(name@).push(record.filename),
            }),
            None => r is Err && r->Err_0@ == (CatalogErrorView::NotFound {
                backup_id: backup_id@,
                device_name: name@,
            }),
        },
{
    manager.remove_backup_file(meta, name, backup_id)
}

/// Registers a device in `config` and says so.
pub fn add_device(
    manager: &ConfigManager,
    config: &mut Config,
    name: &str,
    ip: &str,
    user: &str,
    password: &str,
) -> (r: String)
    ensures
        final(config)@ == old(config)@.insert(
            name@,
            DeviceView { name: name@, ip: ip@, user: user@, password: password@ },
        ),
        r@ == "✅ Device '"@ + name@ + "' added successfully"@,
{
    manager.add_device(config, name, ip, user, password);
    let mut message = String::from_str("✅ Device '");
    message.append(name);
    message.append("' added successfully");
    message
}

/// The line of a device in the listing of the registry.
pub open spec fn device_line(device: DeviceView) -> Seq<char> {
    "📱 "@ + device.name + " ("@ + device.ip + ")"@
}

/// The listing of a registry: a hint when it is empty, else a heading, a
/// rule and one line for each device.
pub open spec fn device_lines(devices: Seq<DeviceView>) -> Seq<Seq<char>> {
    if devices.len() == 0 {
        seq!["No devices registered. Use 'wrtcli add' to add a device."@]
    } else {
        seq!["Registered OpenWrt devices:"@, "---------------------------"@] + devices.map_values(
            |d: DeviceView| device_line(d),
        )
    }
}

/// The lines that list the registered devices.
pub fn list_devices(config: &Config) -> (r: Vec<String>)
    ensures
        r@.map_values(|s: String| s@) == device_lines(config.listed()),
{
    let devices = config.devices();
    let mut lines: Vec<String> = Vec::new();
    if devices.len() == 0 {
        lines.push(String::from_str("No devices registered. Use 'wrtcli add' to add a device."));
        assert(lines@.map_values(|s: String| s@) =~= device_lines(config.listed()));
        return lines;
    }
    lines.push(String::from_str("Registered OpenWrt devices:"));
    lines.push(String::from_str("---------------------------"));
    let ghost listed = devices@.map_values(|d: Device| d@);
    let mut i: usize = 0;
    while i < devices.len()
        invariant
            i <= devices.len(),
            listed == devices@.map_values(|d: Device| d@),
            lines@.len() == 2 + i,
            lines@[0]@ == "Registered OpenWrt devices:"@,
            lines@[1]@ == "---------------------------"@,
            forall|j: int| 0 <= j < i ==> (#[trigger] lines@[2 + j])@ == device_line(listed[j]),
        decreases devices.len() - i,
    {
        let mut line = String::from_str("📱 ");
        line.append(devices[i].name.as_str());
        line.append(" (");
        line.append(devices[i].ip.as_str());
        line.append(")");
        assert(line@ == device_line(listed[i as int]));
        lines.push(line);
        i += 1;
    }
    proof {
        let shown = lines@.map_values(|s: String| s@);
        let head = seq!["Registered OpenWrt devices:"@, "---------------------------"@];
        let tail = listed.map_values(|d: DeviceView| device_line(d));
        assert(listed == config.listed());
        assert(shown.len() == (head + tail).len());
        assert forall|k: int| 0 <= k < shown.len() implies shown[k] == (head + tail)[k] by {
            if k >= 2 {
                assert(lines@[2 + (k - 2)]@ == device_line(listed[k - 2]));
            }
        }
        assert(shown =~= head + tail);
    }
    lines
}

/// The document that a ubus answer carries: the element `result[1]`.
pub open spec fn ubus_payload_of(response: JsonView) -> Option<JsonView> {
    match member_of(response, "result"@) {
        Some(result) => element_of(result, 1),
        None => None,
    }
}

/// The unsigned number at `key` of the document `doc`, or 0 if there is none.
pub open spec fn number_or_zero(doc: Option<JsonView>, key: Seq<char>) -> u64 {
    match doc {
        Some(d) => match member_of(d, key) {
            Some(v) => match unsigned_of(v) {
                Some(n) => n,
                None => 0,
            },
            None => 0,
        },
        None => 0,
    }
}

/// The text at `key` of the document `doc`, or `Unknown` if there is none.
pub open spec fn text_or_unknown(doc: Option<JsonView>, key: Seq<char>) -> Seq<char> {
    match doc {
        Some(d) => match member_of(d, key) {
            Some(v) => match text_of(v) {
                Some(s) => s,
                None => "Unknown"@,
            },
            None => "Unknown"@,
        },
        None => "Unknown"@,
    }
}

/// The member `key` of the document `doc`.
pub open spec fn member_of_option(doc: Option<JsonView>, key: Seq<char>) -> Option<JsonView> {
    match doc {
        Some(d) => member_of(d, key),
        None => None,
    }
}

/// The state of a device, as its answers describe it.
#[derive(Debug)]
pub struct StatusSummary {
    pub model: String,
    pub hostname: String,
    /// Seconds since the device started.
    pub uptime: u64,
    /// Kilobytes of memory in all.
    pub total_memory: u64,
    /// Kilobytes of memory that are free.
    pub free_memory: u64,
}

fn payload(response: &Json) -> (r: Option<&Json>)
    ensures
        match r {
            Some(v) => ubus_payload_of(response@) == Some(v@),
            None => ubus_payload_of(response@) is None,
        },
{
    match response.member("result") {
        Some(result) => result.element(1),
        None => None,
    }
}

fn member_in<'a>(doc: Option<&'a Json>, key: &str) -> (r: Option<&'a Json>)
    ensures
        match r {
            Some(v) => doc is Some && member_of(doc->Some_0@, key@) == Some(v@),
            None => doc is None || member_of(doc->Some_0@, key@) is None,
        },
{
    match doc {
        Some(d) => d.member(key),
        None => None,
    }
}

fn unsigned_in(doc: Option<&Json>, key: &str) -> (r: u64)
    ensures
        r == number_or_zero(
            match doc {
                Some(d) => Some(d@),
                None => None,
            },
            key@,
        ),
{
    match member_in(doc, key) {
        Some(v) => match v.as_unsigned() {
            Some(n) => n,
            None => 0,
        },
        None => 0,
    }
}

fn text_in(doc: Option<&Json>, key: &str) -> (r: String)
    ensures
        r@ == text_or_unknown(
            match doc {
                Some(d) => Some(d@),
                None => None,
            },
            key@,
        ),
{
    match member_in(doc, key) {
        Some(v) => match v.as_text() {
            Some(s) => String::from_str(s),
            None => String::from_str("Unknown"),
        },
        None => String::from_str("Unknown"),
    }
}

/// The two calls that ask a device for its state, within the session that
/// the answer to the login grants: first `system board`, then `system info`.
pub fn status_calls(device: &Device, login: &Json) -> (r: Result<
    (HttpRequest, HttpRequest),
    AuthError,
>)
    ensures
        match ubus_token_of(login@) {
            Some(token) => r is Ok && r->Ok_0.0@ == ubus_request_of(
                device.ip@,
                RpcCallView {
                    id: 2,
                    session: token,
                    object: "system"@,
                    method: "board"@,
                    args: RpcArgsView::Empty,
                },
            ) && r->Ok_0.1@ == ubus_request_of(
                device.ip@,
                RpcCallView {
                    id: 3,
                    session: token,
                    object: "system"@,
                    method: "info"@,
                    args: RpcArgsView::Empty,
                },
            ),
            None => r == Err::<(HttpRequest, HttpRequest), AuthError>(
                AuthError::MissingSessionToken,
            ),
        },
{
    match session_token(login) {
        Ok(token) => Ok(
            (
                ubus_call(device, 2, token.as_str(), "system", "board", RpcArgs::Empty),
                ubus_call(device, 3, token.as_str(), "system", "info", RpcArgs::Empty),
            ),
        ),
        Err(e) => Err(e),
    }
}

/// The state of a device, read from the answers to `system board` and
/// `system info`. What an answer lacks is taken as `Unknown` or as 0.
pub fn get_status(board: &Json, info: &Json) -> (r: StatusSummary)
    ensures
        r.model@ == text_or_unknown(ubus_payload_of(board@), "model"@),
        r.hostname@ == text_or_unknown(ubus_payload_of(board@), "hostname"@),
        r.uptime == number_or_zero(ubus_payload_of(info@), "uptime"@),
        r.total_memory == number_or_zero(
            member_of_option(ubus_payload_of(info@), "memory"@),
            "total"@,
        ),
        r.free_memory == number_or_zero(
            member_of_option(ubus_payload_of(info@), "memory"@),
            "free"@,
        ),
{
    let board_info = payload(board);
    let system_info = payload(info);
    let memory = member_in(system_info, "memory");
    StatusSummary {
        model: text_in(board_info, "model"),
        hostname: text_in(board_info, "hostname"),
        uptime: unsigned_in(system_info, "uptime"),
        total_memory: unsigned_in(memory, "total"),
        free_memory: unsigned_in(memory, "free"),
    }
}

/// The call that reboots a device, within the session that the answer to
/// the login grants.
pub fn reboot_device(device: &Device, login: &Json) -> (r: Result<HttpRequest, AuthError>)
    ensures
        match ubus_token_of(login@) {
            Some(token) => r is Ok && r->Ok_0@ == ubus_request_of(
                device.ip@,
                RpcCallView {
                    id: 2,
                    session: token,
                    object: "system"@,
                    method: "reboot"@,
                    args: RpcArgsView::Empty,
                },
            ),
            None => r == Err::<HttpRequest, AuthError>(AuthError::MissingSessionToken),
        },
{
    match session_token(login) {
        Ok(token) => Ok(ubus_call(device, 2, token.as_str(), "system", "reboot", RpcArgs::Empty)),
        Err(e) => Err(e),
    }
}

/// The parts of an uptime of `seconds` seconds: days, hours, minutes and
/// seconds, each only if it is not zero; zero seconds if nothing else is left.
pub open spec fn uptime_parts(seconds: nat) -> Seq<Seq<char>> {
    let days = seconds / 86400;
    let hours = (seconds % 86400) / 3600;
    let minutes = (seconds % 3600) / 60;
    let secs = seconds % 60;
    let d = if days > 0 {
        seq![decimal(days) + " days"@]
    } else {
        Seq::<Seq<char>>::empty()
    };
    let h = if hours > 0 {
        d.push(decimal(hours) + " hours"@)
    } else {
        d
    };
    let m = if minutes > 0 {
        h.push(decimal(minutes) + " minutes"@)
    } else {
        h
    };
    if secs > 0 || m.len() == 0 {
        m.push(decimal(secs) + " seconds"@)
    } else {
        m
    }
}

/// The parts, with `separator` between each two.
pub open spec fn joined(parts: Seq<Seq<char>>, separator: Seq<char>) -> Seq<char>
    decreases parts.len(),
{
    if parts.len() == 0 {
        Seq::empty()
    } else if parts.len() == 1 {
        parts[0]
    } else {
        joined(parts.drop_last(), separator) + separator + parts.last()
    }
}

fn push_part(parts: &mut Vec<String>, amount: u64, unit: &str)
    ensures
        final(parts)@.map_values(|s: String| s@) == old(parts)@.map_values(|s: String| s@).push(
            decimal(amount as nat) + unit@,
        ),
{
    let mut part = decimal_string(amount);
    part.append(unit);
    parts.push(part);
    assert(parts@.map_values(|s: String| s@) =~= old(parts)@.map_values(|s: String| s@).push(
        decimal(amount as nat) + unit@,
    ));
}

/// Writes an uptime for a reader: `1 days, 2 hours, 3 minutes, 4 seconds`.
pub fn format_uptime(seconds: u64) -> (r: String)
    ensures
        r@ == joined(uptime_parts(seconds as nat), ", "@),
{
    let days: u64 = seconds / (24 * 3600);
    let hours: u64 = (seconds % (24 * 3600)) / 3600;
    let minutes: u64 = (seconds % 3600) / 60;
    let secs: u64 = seconds % 60;
    let mut parts: Vec<String> = Vec::new();
    assert(parts@.map_values(|s: String| s@) =~= Seq::<Seq<char>>::empty());
    if days > 0 {
        push_part(&mut parts, days, " days");
    }
    if hours > 0 {
        push_part(&mut parts, hours, " hours");
    }
    if minutes > 0 {
        push_part(&mut parts, minutes, " minutes");
    }
    if secs > 0 || parts.len() == 0 {
        push_part(&mut parts, secs, " seconds");
    }
    let ghost texts = parts@.map_values(|s: String| s@);
    assert(texts =~= uptime_parts(seconds as nat));
    let mut out = String::new();
    let mut i: usize = 0;
    while i < parts.len()
        invariant
            i <= parts.len(),
            texts == parts@.map_values(|s: String| s@),
            out@ == joined(texts.take(i as int), ", "@),
        decreases parts.len() - i,
    {
        let ghost before = texts.take(i as int);
        let ghost after = texts.take(i + 1);
        assert(after.drop_last() =~= before);
        assert(after.last() == parts@[i as int]@);
        if i > 0 {
            out.append(", ");
        }
        out.append(parts[i].as_str());
        assert(out@ =~= joined(after, ", "@));
        i += 1;
    }
    assert(texts.take(i as int) =~= texts);
    out
}

} // verus!
