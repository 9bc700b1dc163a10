//! Where the tool keeps its files, and the lifecycle of the backup catalog.
//!
//! Nothing here touches the disk. A change to the catalog is made in two
//! moves: the first says which file has to be moved or deleted, the second
//! takes the outcome of that file operation and changes the catalog only if
//! it succeeded. The catalog and the files it names so stay in step.

use vstd::prelude::*;
use vstd::string::*;
use crate::clock::Timestamp;
use crate::models::{
    find, option_text, without, BackupInfo, BackupInfoView, BackupMeta, Device, DeviceView,
};
use crate::registry::{has_name, names_distinct, Config};
use crate::text::catenate;

verus! {

/// The directory of the tool, below the home directory.
pub const DATA_DIR: &'static str = ".wrtcli";

/// The file of the device registry, in the directory of the tool.
pub const CONFIG_FILE: &'static str = "config.toml";

/// The directory of all backups, in the directory of the tool.
pub const BACKUPS_DIR: &'static str = "backups";

/// The file of a device's catalog, in the device's backup directory.
pub const METADATA_FILE: &'static str = "metadata.json";

/// What follows the id in the name of an archive.
pub const BACKUP_SUFFIX: &'static str = "_full_backup.tar.gz";

/// The kind of backup the tool makes.
pub const BACKUP_TYPE: &'static str = "full";

/// A place below the home directory, as the names to descend through.
#[derive(Debug)]
pub struct StorePath {
    pub segments: Vec<String>,
}

impl View for StorePath {
    type V = Seq<Seq<char>>;

    open spec fn view(&self) -> Seq<Seq<char>> {
        self.segments@.map_values(|s: String| s@)
    }
}

impl Clone for StorePath {
    fn clone(&self) -> (r: Self)
        ensures
            r@ == self@,
    {
        let mut segments: Vec<String> = Vec::new();
        let mut i: usize = 0;
        while i < self.segments.len()
            invariant
                i <= self.segments.len(),
                segments@.len() == i,
                forall|j: int| 0 <= j < i ==> (#[trigger] segments@[j])@ == self.segments@[j]@,
            decreases self.segments.len() - i,
        {
            segments.push(self.segments[i].clone());
            i += 1;
        }
        let r = StorePath { segments };
        assert(r@ =~= self@);
        r
    }
}

impl StorePath {
    /// The home directory itself.
    pub fn home() -> (r: Self)
        ensures
            r@ == Seq::<Seq<char>>::empty(),
    {
        let r = StorePath { segments: Vec::new() };
        assert(r@ =~= Seq::<Seq<char>>::empty());
        r
    }

    /// The place that this one lies in; the home directory lies in none.
    pub fn parent(&self) -> (r: Option<Self>)
        ensures
            match r {
                Some(p) => self@.len() > 0 && p@ == self@.drop_last(),
                None => self@.len() == 0,
            },
    {
        if self.segments.len() == 0 {
            return None;
        }
        let mut p = self.clone();
        p.segments.pop();
        assert(p@ =~= self@.drop_last());
        Some(p)
    }

    /// The place `segment` below this one.
    pub fn join(&self, segment: &str) -> (r: Self)
        ensures
            r@ == self@.push(segment@),
    {
        let mut r = self.clone();
        r.segments.push(String::from_str(segment));
        assert(r@ =~= self@.push(segment@));
        r
    }
}

/// The backup directory of a device.
pub open spec fn backup_dir_of(device_name: Seq<char>) -> Seq<Seq<char>> {
    seq![DATA_DIR@, BACKUPS_DIR@, device_name]
}

/// The name of the archive of the backup `id`.
pub open spec fn filename_of(id: Seq<char>) -> Seq<char> {
    id + BACKUP_SUFFIX@
}

/// The record of a backup of `device_name` made at `created_at` of an archive
/// of `size` bytes.
pub open spec fn record_of(
    device_name: Seq<char>,
    description: Option<Seq<char>>,
    backup_method: Seq<char>,
    created_at: Timestamp,
    size: u64,
) -> BackupInfoView {
    BackupInfoView {
        id: created_at.id_text(),
        filename: filename_of(created_at.id_text()),
        created_at,
        device_name,
        description,
        backup_type: BACKUP_TYPE@,
        backup_method,
        size,
    }
}

/// What went wrong with the catalog.
#[derive(Debug)]
pub enum CatalogError {
    /// The catalog of the device holds no backup with the id.
    NotFound { backup_id: String, device_name: String },
    /// The archive could not be moved into the backup directory.
    MoveFailed { cause: String },
    /// The archive of a backup could not be deleted.
    RemoveFailed { filename: String, cause: String },
}

/// What a [`CatalogError`] holds, as plain text.
pub enum CatalogErrorView {
    NotFound { backup_id: Seq<char>, device_name: Seq<char> },
    MoveFailed { cause: Seq<char> },
    RemoveFailed { filename: Seq<char>, cause: Seq<char> },
}

impl View for CatalogError {
    type V = CatalogErrorView;

    open spec fn view(&self) -> CatalogErrorView {
        match self {
            CatalogError::NotFound { backup_id, device_name } => CatalogErrorView::NotFound {
                backup_id: backup_id@,
                device_name: device_name@,
            },
            CatalogError::MoveFailed { cause } => CatalogErrorView::MoveFailed { cause: cause@ },
            CatalogError::RemoveFailed { filename, cause } => CatalogErrorView::RemoveFailed {
                filename: filename@,
                cause: cause@,
            },
        }
    }
}

/// The message of a failed lookup: it names the backup and the device.
pub open spec fn not_found_text(backup_id: Seq<char>, device_name: Seq<char>) -> Seq<char> {
    "Backup '"@ + backup_id + "' not found for device '"@ + device_name + "'"@
}

/// The message of an error.
pub open spec fn message_of(e: CatalogErrorView) -> Seq<char> {
    match e {
        CatalogErrorView::NotFound { backup_id, device_name } => not_found_text(
            backup_id,
            device_name,
        ),
        CatalogErrorView::MoveFailed { cause } => cause,
        CatalogErrorView::RemoveFailed { filename, cause } => "Failed to remove backup file: "@
            + filename,
    }
}

impl CatalogError {
    /// The error of a lookup of `backup_id` that found nothing for `device_name`.
    pub fn not_found(backup_id: &str, device_name: &str) -> (r: Self)
        ensures
            r@ == (CatalogErrorView::NotFound { backup_id: backup_id@, device_name: device_name@ }),
    {
        CatalogError::NotFound {
            backup_id: String::from_str(backup_id),
            device_name: String::from_str(device_name),
        }
    }

    /// The message of the error, for the user.
    pub fn message(&self) -> (r: String)
        ensures
            r@ == message_of(self@),
    {
        match self {
            CatalogError::NotFound { backup_id, device_name } => {
                let mut m = String::from_str("Backup '");
                m.append(backup_id.as_str());
                m.append("' not found for device '");
                m.append(device_name.as_str());
                m.append("'");
                m
            },
            CatalogError::MoveFailed { cause } => cause.clone(),
            CatalogError::RemoveFailed { filename, cause } => catenate(
                "Failed to remove backup file: ",
                filename.as_str(),
            ),
        }
    }
}

/// A backup that is described but not yet in the catalog: its archive still
/// has to be moved to `destination`.
#[derive(Debug)]
pub struct PendingBackup {
    pub record: BackupInfo,
    pub destination: StorePath,
}

/// A removal that is decided but not yet made: the archive `file` still has
/// to be deleted.
#[derive(Debug)]
pub struct PendingRemoval {
    pub backup_id: String,
    pub filename: String,
    pub file: StorePath,
}

/// What a [`PendingRemoval`] holds, as plain values.
pub struct PendingRemovalView {
    pub backup_id: Seq<char>,
    pub filename: Seq<char>,
    pub file: Seq<Seq<char>>,
}

impl View for PendingRemoval {
    type V = PendingRemovalView;

    open spec fn view(&self) -> PendingRemovalView {
        PendingRemovalView { backup_id: self.backup_id@, filename: self.filename@, file: self.file@ }
    }
}

/// Knows where the files of the tool lie and how the catalog changes.
#[derive(Debug)]
pub struct ConfigManager {
    config_path: StorePath,
}

impl ConfigManager {
    #[verifier::type_invariant]
    spec fn inv(self) -> bool {
        self.config_path@ == seq![DATA_DIR@, CONFIG_FILE@]
    }

    /// The manager of the files below `.wrtcli` in the home directory.
    pub fn new() -> (r: Self)
        ensures
            r.spec_config_path() == seq![DATA_DIR@, CONFIG_FILE@],
    {
        let config_path = StorePath::home().join(DATA_DIR).join(CONFIG_FILE);
        assert(config_path@ =~= seq![DATA_DIR@, CONFIG_FILE@]);
        ConfigManager { config_path }
    }

    /// The place of the registry file.
    pub closed spec fn spec_config_path(&self) -> Seq<Seq<char>> {
        self.config_path@
    }

    /// The place of the registry file: `.wrtcli/config.toml`.
    pub fn config_path(&self) -> (r: &StorePath)
        ensures
            r@ == seq![DATA_DIR@, CONFIG_FILE@],
            r@ == self.spec_config_path(),
    {
        proof {
            use_type_invariant(self);
        }
        &self.config_path
    }

    /// The directory of the tool: the one the registry file lies in.
    pub fn data_dir(&self) -> (r: StorePath)
        ensures
            r@ == seq![DATA_DIR@],
    {
        proof {
            use_type_invariant(self);
        }
        match self.config_path.parent() {
            Some(dir) => {
                assert(dir@ =~= seq![DATA_DIR@]);
                dir
            },
            None => StorePath::home().join(DATA_DIR),
        }
    }

    /// The directory that holds the backup directories of all devices.
    pub fn backups_root(&self) -> (r: StorePath)
        ensures
            r@ == seq![DATA_DIR@, BACKUPS_DIR@],
    {
        let r = self.data_dir().join(BACKUPS_DIR);
        assert(r@ =~= seq![DATA_DIR@, BACKUPS_DIR@]);
        r
    }

    /// The backup directory of a device: `.wrtcli/backups/<device>`.
    pub fn get_backup_dir(&self, device_name: &str) -> (r: StorePath)
        ensures
            r@ == backup_dir_of(device_name@),
    {
        let r = self.backups_root().join(device_name);
        assert(r@ =~= backup_dir_of(device_name@));
        r
    }

    /// The place of the catalog file of a device.
    pub fn metadata_path(&self, device_name: &str) -> (r: StorePath)
        ensures
            r@ == backup_dir_of(device_name@).push(METADATA_FILE@),
    {
        self.get_backup_dir(device_name).join(METADATA_FILE)
    }

    /// The catalog of a device, given what its catalog file held: a device
    /// without a catalog file has the empty catalog.
    pub fn load_backup_meta(&self, stored: Option<BackupMeta>) -> (r: BackupMeta)
        ensures
            r@ == match stored {
                Some(meta) => meta@,
                None => Seq::<BackupInfoView>::empty(),
            },
    {
        match stored {
            Some(meta) => meta,
            None => BackupMeta::new(),
        }
    }

    /// The registry, given what the registry file held: without a registry
    /// file no device is registered.
    pub fn load_config(&self, stored: Option<Config>) -> (r: Config)
        ensures
            r@ == match stored {
                Some(config) => config@,
                None => Map::<Seq<char>, DeviceView>::empty(),
            },
    {
        match stored {
            Some(config) => config,
            None => Config::new(),
        }
    }

    /// Describes the backup of `device_name` made at `created_at`, whose
    /// archive has `size` bytes: its record, with the id and the file name
    /// that follow from the time, and the place the archive belongs to.
    pub fn describe_backup(
        &self,
        device_name: &str,
        description: Option<String>,
        backup_method: String,
        created_at: Timestamp,
        size: u64,
    ) -> (r: PendingBackup)
        requires
            created_at.is_valid(),
        ensures
            r.record@ == record_of(
                device_name@,
                option_text(description),
                backup_method@,
                created_at,
                size,
            ),
            r.destination@ == backup_dir_of(device_name@).push(r.record@.filename),
    {
        let id = created_at.backup_id();
        let filename = catenate(id.as_str(), BACKUP_SUFFIX);
        let destination = self.get_backup_dir(device_name).join(filename.as_str());
        let record = BackupInfo {
            id,
            filename,
            created_at,
            device_name: String::from_str(device_name),
            description,
            backup_type: String::from_str(BACKUP_TYPE),
            backup_method,
            size,
        };
        PendingBackup { record, destination }
    }

    /// Describes a backup of `device_name` made now. The time is whatever the
    /// clock says; the rest of the record follows from it as in
    /// [`ConfigManager::describe_backup`].
    pub fn add_backup(
        &self,
        device_name: &str,
        description: Option<String>,
        backup_method: String,
        size: u64,
    ) -> (r: PendingBackup)
        ensures
            r.record.created_at.is_valid(),
            r.record@ == record_of(
                device_name@,
                option_text(description),
                backup_method@,
                r.record.created_at,
                size,
            ),
            r.destination@ == backup_dir_of(device_name@).push(r.record@.filename),
    {
        let created_at = Timestamp::now();
        self.describe_backup(device_name, description, backup_method, created_at, size)
    }

    /// Closes the addition of a backup, once the move of its archive to
    /// `pending.destination` has been tried. The record enters the catalog,
    /// behind the others, only if the archive is in place; if the move failed
    /// the catalog is left as it was.
    pub fn confirm_backup(
        &self,
        meta: &mut BackupMeta,
        pending: PendingBackup,
        moved: Result<(), String>,
    ) -> (r: Result<BackupInfo, CatalogError>)
        ensures
            match moved {
                Ok(_) => final(meta)@ == old(meta)@.push(pending.record@) && r is Ok && r->Ok_0@
                    == pending.record@,
                Err(cause) => final(meta)@ == old(meta)@ && r is Err && r->Err_0@ == (
                CatalogErrorView::MoveFailed { cause: cause@ }),
            },
    {
        match moved {
            Ok(_) => {
                meta.add_backup(pending.record.clone());
                Ok(pending.record)
            },
            Err(cause) => Err(CatalogError::MoveFailed { cause }),
        }
    }

    /// Opens the removal of the backup `backup_id`: names the archive that
    /// has to be deleted, or says that the catalog holds no such backup.
    pub fn remove_backup_file(&self, meta: &BackupMeta, device_name: &str, backup_id: &str) -> (r:
        Result<PendingRemoval, CatalogError>)
        ensures
            match find(meta@, backup_id@) {
                Some(record) => r is Ok && r->Ok_0@ == (PendingRemovalView {
                    backup_id: backup_id@,
                    filename: record.filename,
                    file: backup_dir_of(device_name@).push(record.filename),
                }),
                None => r is Err && r->Err_0@ == (CatalogErrorView::NotFound {
                    backup_id: backup_id@,
                    device_name: device_name@,
                }),
            },
    {
        match meta.get_backup(backup_id) {
            Some(backup) => Ok(
                PendingRemoval {
                    backup_id: String::from_str(backup_id),
                    filename: backup.filename.clone(),
                    file: self.get_backup_dir(device_name).join(backup.filename.as_str()),
                },
            ),
            None => Err(CatalogError::not_found(backup_id, device_name)),
        }
    }

    /// Closes a removal, once the deletion of the archive `pending.file` has
    /// been tried. If the deletion failed the catalog is left as it was;
    /// otherwise the first record with the id leaves the catalog.
    pub fn confirm_removal(
        &self,
        meta: &mut BackupMeta,
        pending: PendingRemoval,
        deleted: Result<(), String>,
    ) -> (r: Result<(), CatalogError>)
        ensures
            match deleted {
                Ok(_) => final(meta)@ == without(old(meta)@, pending.backup_id@) && r is Ok,
                Err(cause) => final(meta)@ == old(meta)@ && r is Err && r->Err_0@ == (
                CatalogErrorView::RemoveFailed { filename: pending.filename@, cause: cause@ }),
            },
    {
        match deleted {
            Ok(_) => {
                meta.remove_backup(pending.backup_id.as_str());
                Ok(())
            },
            Err(cause) => Err(CatalogError::RemoveFailed { filename: pending.filename, cause }),
        }
    }

    /// Registers a device in `config`, in place of the device that had the
    /// name before, if there was one.
    pub fn add_device(&self, config: &mut Config, name: &str, ip: &str, user: &str, password: &str)
        ensures
            final(config)@ == old(config)@.insert(
                name@,
                DeviceView { name: name@, ip: ip@, user: user@, password: password@ },
            ),
    {
        let device = Device::new(
            String::from_str(name),
            String::from_str(ip),
            String::from_str(user),
            String::from_str(password),
        );
        config.add_device(device);
    }

    /// A copy of the device registered in `config` under `name`, if there is one.
    pub fn get_device(&self, config: &Config, name: &str) -> (r: Option<Device>)
        ensures
            match r {
                Some(d) => config@.contains_key(name@) && d@ == config@[name@],
                None => !config@.contains_key(name@),
            },
    {
        match config.get_device(name) {
            Some(device) => Some(device.clone()),
            None => None,
        }
    }

    /// Every device registered in `config`, each once.
    pub fn get_all_devices(&self, config: &Config) -> (r: Vec<Device>)
        ensures
            r@.map_values(|d: Device| d@) == config.listed(),
            names_distinct(r@),
            forall|i: int|
                0 <= i < r@.len() ==> config@.contains_key((#[trigger] r@[i]).name@)
                    && config@[r@[i].name@] == r@[i]@,
            forall|name: Seq<char>| config@.contains_key(name) ==> has_name(r@, name),
    {
        config.devices()
    }
}

} // verus!
