//! The records the tool keeps: devices, the device registry, backup records
//! and the per-device backup catalog.

use vstd::prelude::*;
use vstd::string::*;
use crate::clock::Timestamp;
use crate::text::same_text;

verus! {

/// A registered device: its name, its address and the credentials used on it.
#[derive(Debug)]
pub struct Device {
    pub name: String,
    pub ip: String,
    pub user: String,
    pub password: String,
}

/// What a [`Device`] holds, as plain text.
pub struct DeviceView {
    pub name: Seq<char>,
    pub ip: Seq<char>,
    pub user: Seq<char>,
    pub password: Seq<char>,
}

impl View for Device {
    type V = DeviceView;

    open spec fn view(&self) -> DeviceView {
        DeviceView { name: self.name@, ip: self.ip@, user: self.user@, password: self.password@ }
    }
}

impl Clone for Device {
    fn clone(&self) -> (r: Self)
        ensures
            r@ == self@,
    {
        Device {
            name: self.name.clone(),
            ip: self.ip.clone(),
            user: self.user.clone(),
            password: self.password.clone(),
        }
    }
}

/// The address of the ubus endpoint of a device at `ip`.
pub open spec fn ubus_url_of(ip: Seq<char>) -> Seq<char> {
    "http://"@ + ip + "/ubus"@
}

/// The base address of the LuCI web interface of a device at `ip`.
pub open spec fn luci_url_of(ip: Seq<char>) -> Seq<char> {
    "http://"@ + ip
}

impl Device {
    pub fn new(name: String, ip: String, user: String, password: String) -> (r: Self)
        ensures
            r@ == (DeviceView { name: name@, ip: ip@, user: user@, password: password@ }),
    {
        Device { name, ip, user, password }
    }

    /// The address that ubus calls are posted to.
    pub fn ubus_url(&self) -> (r: String)
        ensures
            r@ == ubus_url_of(self.ip@),
    {
        let mut url = String::from_str("http://");
        url.append(self.ip.as_str());
        url.append("/ubus");
        url
    }

    /// The address that LuCI paths are appended to.
    pub fn luci_url(&self) -> (r: String)
        ensures
            r@ == luci_url_of(self.ip@),
    {
        let mut url = String::from_str("http://");
        url.append(self.ip.as_str());
        url
    }
}

/// Memory figures of a device, in kilobytes.
#[derive(Clone, Copy, Debug, PartialEq, Eq, Structural)]
pub struct MemoryStatus {
    pub total: u64,
    pub free: u64,
    pub buffered: u64,
    pub cached: u64,
}

/// One stored backup of one device.
#[derive(Debug)]
pub struct BackupInfo {
    pub id: String,
    pub filename: String,
    pub created_at: Timestamp,
    pub device_name: String,
    pub description: Option<String>,
    pub backup_type: String,
    /// `"luci"` or `"ubus"`.
    pub backup_method: String,
    pub size: u64,
}

/// What a [`BackupInfo`] holds, as plain values.
pub struct BackupInfoView {
    pub id: Seq<char>,
    pub filename: Seq<char>,
    pub created_at: Timestamp,
    pub device_name: Seq<char>,
    pub description: Option<Seq<char>>,
    pub backup_type: Seq<char>,
    pub backup_method: Seq<char>,
    pub size: u64,
}

/// The text of an optional string.
pub open spec fn option_text(o: Option<String>) -> Option<Seq<char>> {
    match o {
        Some(s) => Some(s@),
        None => None,
    }
}

/// Copies an optional string.
pub fn clone_option_text(o: &Option<String>) -> (r: Option<String>)
    ensures
        option_text(r) == option_text(*o),
{
    match o {
        Some(s) => Some(s.clone()),
        None => None,
    }
}

impl View for BackupInfo {
    type V = BackupInfoView;

    open spec fn view(&self) -> BackupInfoView {
        BackupInfoView {
            id: self.id@,
            filename: self.filename@,
            created_at: self.created_at,
            device_name: self.device_name@,
            description: option_text(self.description),
            backup_type: self.backup_type@,
            backup_method: self.backup_method@,
            size: self.size,
        }
    }
}

impl Clone for BackupInfo {
    fn clone(&self) -> (r: Self)
        ensures
            r@ == self@,
    {
        BackupInfo {
            id: self.id.clone(),
            filename: self.filename.clone(),
            created_at: self.created_at,
            device_name: self.device_name.clone(),
            description: clone_option_text(&self.description),
            backup_type: self.backup_type.clone(),
            backup_method: self.backup_method.clone(),
            size: self.size,
        }
    }
}

/// Whether some record of `s` has the id `id`.
pub open spec fn has_id(s: Seq<BackupInfoView>, id: Seq<char>) -> bool {
    exists|i: int| 0 <= i < s.len() && (#[trigger] s[i]).id == id
}

/// Whether `i` is the position of the first record of `s` whose id is `id`.
pub open spec fn is_first_with_id(s: Seq<BackupInfoView>, id: Seq<char>, i: int) -> bool {
    &&& 0 <= i < s.len()
    &&& s[i].id == id
    &&& forall|j: int| 0 <= j < i ==> (#[trigger] s[j]).id != id
}

/// The position of the first record of `s` whose id is `id`, where there is one.
pub open spec fn first_with_id(s: Seq<BackupInfoView>, id: Seq<char>) -> int {
    choose|i: int| is_first_with_id(s, id, i)
}

/// The record that a lookup of `id` in `s` gives: the first one with that id.
pub open spec fn find(s: Seq<BackupInfoView>, id: Seq<char>) -> Option<BackupInfoView> {
    if has_id(s, id) {
        Some(s[first_with_id(s, id)])
    } else {
        None
    }
}

/// The catalog `s` after the removal of `id`: the first record with that id is
/// taken out, the others keep their order; without such a record nothing changes.
pub open spec fn without(s: Seq<BackupInfoView>, id: Seq<char>) -> Seq<BackupInfoView> {
    if has_id(s, id) {
        s.remove(first_with_id(s, id))
    } else {
        s
    }
}

/// There is at most one first position.
pub proof fn lemma_first_unique(s: Seq<BackupInfoView>, id: Seq<char>, i: int)
    requires
        is_first_with_id(s, id, i),
    ensures
        has_id(s, id),
        first_with_id(s, id) == i,
{
    let k = first_with_id(s, id);
    assert(is_first_with_id(s, id, k));
    if k < i {
        assert(s[k].id != id);
    }
    if i < k {
        assert(s[i].id != id);
    }
}

/// Among the first `n` records, either none has the id or there is a first one.
proof fn lemma_first_below(s: Seq<BackupInfoView>, id: Seq<char>, n: int) -> (r: int)
    requires
        0 <= n <= s.len(),
    ensures
        r == -1 ==> forall|j: int| 0 <= j < n ==> (#[trigger] s[j]).id != id,
        r != -1 ==> r < n && is_first_with_id(s, id, r),
    decreases n,
{
    if n == 0 {
        -1
    } else {
        let r = lemma_first_below(s, id, n - 1);
        if r != -1 {
            r
        } else if s[n - 1].id == id {
            n - 1
        } else {
            -1
        }
    }
}

/// A catalog that holds an id holds a first record with it.
pub proof fn lemma_first_exists(s: Seq<BackupInfoView>, id: Seq<char>)
    requires
        has_id(s, id),
    ensures
        is_first_with_id(s, id, first_with_id(s, id)),
{
    let r = lemma_first_below(s, id, s.len() as int);
    if r == -1 {
        let i = choose|i: int| 0 <= i < s.len() && (#[trigger] s[i]).id == id;
        assert(s[i].id != id);
    }
    lemma_first_unique(s, id, r);
}

/// Whether at most one record of `s` has the id `id`.
pub open spec fn at_most_once(s: Seq<BackupInfoView>, id: Seq<char>) -> bool {
    forall|i: int, j: int|
        0 <= i < s.len() && 0 <= j < s.len() && (#[trigger] s[i]).id == id && (#[trigger] s[j]).id
            == id ==> i == j
}

/// The catalog `s` after the records `added` were added to it one by one.
pub open spec fn after_adds(s: Seq<BackupInfoView>, added: Seq<BackupInfoView>) -> Seq<
    BackupInfoView,
>
    decreases added.len(),
{
    if added.len() == 0 {
        s
    } else {
        after_adds(s, added.drop_last()).push(added.last())
    }
}

/// Whether two records with the same id always have the same file name.
pub open spec fn names_follow_ids(s: Seq<BackupInfoView>) -> bool {
    forall|i: int, j: int|
        0 <= i < s.len() && 0 <= j < s.len() && (#[trigger] s[i]).id == (#[trigger] s[j]).id
            ==> s[i].filename == s[j].filename
}

/// A lookup of the id of a record that was just added finds a record with
/// that id, and with the file name of the added record where file names
/// follow ids; it finds the added record itself if the id was not taken.
pub proof fn lemma_added_is_found(s: Seq<BackupInfoView>, record: BackupInfoView)
    ensures
        find(s.push(record), record.id) is Some,
        find(s.push(record), record.id)->Some_0.id == record.id,
        names_follow_ids(s.push(record)) ==> find(s.push(record), record.id)->Some_0.filename
            == record.filename,
        !has_id(s, record.id) ==> find(s.push(record), record.id) == Some(record),
{
    let after = s.push(record);
    assert(after[s.len() as int].id == record.id);
    lemma_first_exists(after, record.id);
    let k = first_with_id(after, record.id);
    if names_follow_ids(after) {
        assert(after[k].id == after[s.len() as int].id);
    }
    if !has_id(s, record.id) {
        if k < s.len() {
            assert(s[k].id == record.id);
        }
    }
}

/// Adding a record changes no lookup of another id.
pub proof fn lemma_add_keeps_others(s: Seq<BackupInfoView>, record: BackupInfoView, id: Seq<char>)
    requires
        id != record.id,
    ensures
        find(s.push(record), id) == find(s, id),
{
    let after = s.push(record);
    if has_id(s, id) {
        lemma_first_exists(s, id);
        let k = first_with_id(s, id);
        assert(after[k] == s[k]);
        assert forall|j: int| 0 <= j < k implies (#[trigger] after[j]).id != id by {
            assert(after[j] == s[j]);
        }
        lemma_first_unique(after, id, k);
    } else if has_id(after, id) {
        let i = choose|i: int| 0 <= i < after.len() && (#[trigger] after[i]).id == id;
        assert(s[i].id == id);
    }
}

/// After any number of additions the catalog lists what it held before and
/// then the added records, in the order of their addition. Started from the
/// empty catalog it lists exactly the added records.
pub proof fn lemma_adds_keep_order(s: Seq<BackupInfoView>, added: Seq<BackupInfoView>)
    ensures
        after_adds(s, added) == s + added,
        after_adds(Seq::empty(), added) == added,
        after_adds(Seq::empty(), added).len() == added.len(),
    decreases added.len(),
{
    if added.len() == 0 {
        assert(s + added =~= s);
        assert(Seq::<BackupInfoView>::empty() + added =~= added);
    } else {
        lemma_adds_keep_order(s, added.drop_last());
        lemma_adds_keep_order(Seq::empty(), added.drop_last());
        assert((s + added.drop_last()).push(added.last()) =~= s + added);
        assert(added.drop_last().push(added.last()) =~= added);
    }
}

/// After the removal of an id that at most one record had, a lookup of the
/// id finds nothing.
pub proof fn lemma_removed_is_gone(s: Seq<BackupInfoView>, id: Seq<char>)
    requires
        at_most_once(s, id),
    ensures
        find(without(s, id), id) is None,
{
    if has_id(s, id) {
        lemma_first_exists(s, id);
        let k = first_with_id(s, id);
        let after = s.remove(k);
        if has_id(after, id) {
            let i = choose|i: int| 0 <= i < after.len() && (#[trigger] after[i]).id == id;
            if i < k {
                assert(s[i].id == id);
            } else {
                assert(s[i + 1].id == id);
            }
        }
    }
}

/// A removal changes no lookup of another id.
pub proof fn lemma_remove_keeps_others(s: Seq<BackupInfoView>, id: Seq<char>, other: Seq<char>)
    requires
        other != id,
    ensures
        find(without(s, id), other) == find(s, other),
{
    if has_id(s, id) {
        lemma_first_exists(s, id);
        let k = first_with_id(s, id);
        let after = s.remove(k);
        if has_id(s, other) {
            lemma_first_exists(s, other);
            let m = first_with_id(s, other);
            let m2 = if m < k {
                m
            } else {
                m - 1
            };
            assert(after[m2] == s[m]);
            assert forall|j: int| 0 <= j < m2 implies (#[trigger] after[j]).id != other by {
                if j < k {
                    assert(after[j] == s[j]);
                } else {
                    assert(after[j] == s[j + 1]);
                }
            }
            lemma_first_unique(after, other, m2);
        } else if has_id(after, other) {
            let i = choose|i: int| 0 <= i < after.len() && (#[trigger] after[i]).id == other;
            if i < k {
                assert(s[i].id == other);
            } else {
                assert(s[i + 1].id == other);
            }
        }
    }
}

/// The backup catalog of one device: its records in the order of creation.
#[derive(Debug)]
pub struct BackupMeta {
    pub backups: Vec<BackupInfo>,
}

impl View for BackupMeta {
    type V = Seq<BackupInfoView>;

    open spec fn view(&self) -> Seq<BackupInfoView> {
        self.backups@.map_values(|b: BackupInfo| b@)
    }
}

impl Clone for BackupMeta {
    fn clone(&self) -> (r: Self)
        ensures
            r@ == self@,
    {
        let mut backups: Vec<BackupInfo> = Vec::new();
        let mut i: usize = 0;
        while i < self.backups.len()
            invariant
                i <= self.backups.len(),
                backups@.len() == i,
                forall|j: int| 0 <= j < i ==> (#[trigger] backups@[j])@ == self.backups@[j]@,
            decreases self.backups.len() - i,
        {
            backups.push(self.backups[i].clone());
            i += 1;
        }
        let r = BackupMeta { backups };
        assert(r@ =~= self@);
        r
    }
}

impl BackupMeta {
    /// The empty catalog.
    pub fn new() -> (r: Self)
        ensures
            r@ == Seq::<BackupInfoView>::empty(),
    {
        let r = BackupMeta { backups: Vec::new() };
        assert(r@ =~= Seq::<BackupInfoView>::empty());
        r
    }

    /// Appends a record; the records before it stay as they are.
    pub fn add_backup(&mut self, backup: BackupInfo)
        ensures
            final(self)@ == old(self)@.push(backup@),
    {
        self.backups.push(backup);
        assert(self@ =~= old(self)@.push(backup@));
    }

    /// The records, in the order of their creation.
    pub fn list(&self) -> (r: &Vec<BackupInfo>)
        ensures
            r@.map_values(|b: BackupInfo| b@) == self@,
    {
        &self.backups
    }

    /// The position of the first record with the id `id`.
    pub fn position(&self, id: &str) -> (r: Option<usize>)
        ensures
            match r {
                Some(i) => is_first_with_id(self@, id@, i as int),
                None => !has_id(self@, id@),
            },
    {
        let mut i: usize = 0;
        while i < self.backups.len()
            invariant
                i <= self.backups.len(),
                forall|j: int| 0 <= j < i ==> (#[trigger] self@[j]).id != id@,
            decreases self.backups.len() - i,
        {
            if same_text(self.backups[i].id.as_str(), id) {
                return Some(i);
            }
            i += 1;
        }
        None
    }

    /// The first record with the id `id`, if the catalog holds one.
    pub fn get_backup(&self, id: &str) -> (r: Option<&BackupInfo>)
        ensures
            match r {
                Some(b) => Some(b@) == find(self@, id@),
                None => find(self@, id@) is None,
            },
    {
        match self.position(id) {
            Some(i) => {
                proof {
                    lemma_first_unique(self@, id@, i as int);
                }
                Some(&self.backups[i])
            },
            None => None,
        }
    }

    /// Takes the first record with the id `id` out of the catalog and says
    /// whether there was one.
    pub fn remove_backup(&mut self, id: &str) -> (r: bool)
        ensures
            r == has_id(old(self)@, id@),
            final(self)@ == without(old(self)@, id@),
    {
        match self.position(id) {
            Some(i) => {
                proof {
                    lemma_first_unique(self@, id@, i as int);
                }
                self.backups.remove(i);
                assert(self@ =~= old(self)@.remove(i as int));
                true
            },
            None => false,
        }
    }
}

} // verus!
