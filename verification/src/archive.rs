//! Building a gzip-compressed tar archive in memory.

use vstd::prelude::*;
use vstd::string::*;

verus! {

/// One file of an archive: its path in the archive, its permission bits and
/// its content.
#[derive(Debug)]
pub struct ArchiveEntry {
    pub path: String,
    pub mode: u32,
    pub data: Vec<u8>,
}

impl View for ArchiveEntry {
    type V = (Seq<char>, u32, Seq<u8>);

    open spec fn view(&self) -> (Seq<char>, u32, Seq<u8>) {
        (self.path@, self.mode, self.data@)
    }
}

/// The views of a list of entries.
pub open spec fn entry_views(entries: Seq<ArchiveEntry>) -> Seq<(Seq<char>, u32, Seq<u8>)> {
    entries.map_values(|e: ArchiveEntry| e@)
}

/// Whether `c` is an ASCII letter, an ASCII digit or an underscore.
pub open spec fn is_word_char(c: char) -> bool {
    ||| 'a' <= c <= 'z'
    ||| 'A' <= c <= 'Z'
    ||| '0' <= c <= '9'
    ||| c == '_'
}

/// Whether `path` is a relative path that an archive stores as it is written:
/// at most 99 characters, made of words joined by single `/` or `.`.
pub open spec fn plain_entry_path(path: Seq<char>) -> bool {
    &&& 1 <= path.len() <= 99
    &&& forall|i: int|
        0 <= i < path.len() ==> (is_word_char(#[trigger] path[i]) || path[i] == '/' || path[i]
            == '.')
    &&& forall|i: int|
        0 <= i < path.len() && !is_word_char(#[trigger] path[i]) ==> 0 < i < path.len() - 1
            && is_word_char(path[i - 1]) && is_word_char(path[i + 1])
}

/// The largest permission bits an entry can have.
pub const MAX_MODE: u32 = 0o7777;

/// Whether every entry has a plain path and permission bits within bounds.
pub open spec fn all_storable(entries: Seq<(Seq<char>, u32, Seq<u8>)>) -> bool {
    forall|i: int|
        0 <= i < entries.len() ==> plain_entry_path((#[trigger] entries[i]).0) && entries[i].1
            <= MAX_MODE
}

/// Why an archive could not be built.
#[derive(Debug)]
pub enum ArchiveError {
    /// The entry at `index` has a path that is not plain, or permission bits
    /// out of bounds.
    UnsupportedEntry { index: usize },
    /// Writing the archive failed.
    Write { cause: String },
}

/// The error of the standard library for failed reads and writes. Nothing
/// is known of its content.
#[verifier::external_type_specification]
#[verifier::external_body]
pub struct ExIoError(std::io::Error);

/// A tar archive under construction, compressed with gzip into memory: a
/// `tar::Builder` over a `flate2::write::GzEncoder` over a vector of bytes.
/// What it holds is known only through [`archive_entries`].
#[verifier::external_body]
pub struct ArchiveWriter {
    inner: tar::Builder<flate2::write::GzEncoder<Vec<u8>>>,
}

/// The entries written to an archive so far: path, permission bits, content.
pub uninterp spec fn archive_entries(w: ArchiveWriter) -> Seq<(Seq<char>, u32, Seq<u8>)>;

/// Whether writing a file with `path`, `mode` and `data` into an archive
/// that holds `before` succeeds.
pub uninterp spec fn append_accepted(
    before: Seq<(Seq<char>, u32, Seq<u8>)>,
    path: Seq<char>,
    mode: u32,
    data: Seq<u8>,
) -> bool;

/// What finishing an archive that holds `entries` gives: the bytes of the
/// finished archive, or nothing where finishing fails.
pub uninterp spec fn tar_gz_bytes(entries: Seq<(Seq<char>, u32, Seq<u8>)>) -> Option<Seq<u8>>;

/// Whether `entries` can be written into a fresh archive one after the
/// other: each is accepted behind those before it.
pub open spec fn appends_accepted(entries: Seq<(Seq<char>, u32, Seq<u8>)>) -> bool
    decreases entries.len(),
{
    entries.len() == 0 || (appends_accepted(entries.drop_last()) && append_accepted(
        entries.drop_last(),
        entries.last().0,
        entries.last().1,
        entries.last().2,
    ))
}

/// The archive of `entries`: the bytes that finishing gives once every
/// entry was written. There is none where an entry cannot be stored, where
/// writing an entry fails or where finishing fails.
pub open spec fn encoded(entries: Seq<(Seq<char>, u32, Seq<u8>)>) -> Option<Seq<u8>> {
    if all_storable(entries) && appends_accepted(entries) {
        tar_gz_bytes(entries)
    } else {
        None
    }
}

/// Entries of which the first few cannot be written cannot be written.
pub proof fn lemma_appends_accepted_prefix(entries: Seq<(Seq<char>, u32, Seq<u8>)>, k: int)
    requires
        0 <= k <= entries.len(),
        appends_accepted(entries),
    ensures
        appends_accepted(entries.take(k)),
    decreases entries.len(),
{
    if k < entries.len() {
        lemma_appends_accepted_prefix(entries.drop_last(), k);
        assert(entries.drop_last().take(k) =~= entries.take(k));
    } else {
        assert(entries.take(k) =~= entries);
    }
}

/// Starts an archive: `tar::Builder::new` on a `flate2::write::GzEncoder::new`
/// of the default compression level that writes to a fresh vector. The
/// contract is not proved; it claims that the archive holds no entry yet.
#[verifier::external_body]
fn archive_open() -> (w: ArchiveWriter)
    ensures
        archive_entries(w) == Seq::<(Seq<char>, u32, Seq<u8>)>::empty(),
{
    let encoder = flate2::write::GzEncoder::new(Vec::new(), flate2::Compression::default());
    ArchiveWriter { inner: tar::Builder::new(encoder) }
}

/// Appends one file with `tar::Builder::append_data`, under a GNU header
/// (`tar::Header::new_gnu`) that carries the length of `data` as size
/// (`set_size`) and `mode` as permission bits (`set_mode`). The contract is
/// not proved. It claims that, when the call succeeds, the archive has one
/// entry more, behind the others, with the path, the permission bits and
/// the content that were given: tar stores a plain path as it is written,
/// and permission bits up to `MAX_MODE` fit the header. Whether the call
/// succeeds is not claimed, only named: the archive is written to memory,
/// so it depends on nothing but what the archive holds and what is
/// appended. Nothing is claimed of the archive after a failure.
#[verifier::external_body]
fn archive_append(w: &mut ArchiveWriter, path: &str, mode: u32, data: &[u8]) -> (r: Result<
    (),
    std::io::Error,
>)
    requires
        plain_entry_path(path@),
        mode <= MAX_MODE,
    ensures
        r is Ok <==> append_accepted(archive_entries(*old(w)), path@, mode, data@),
        r is Ok ==> archive_entries(*final(w)) == archive_entries(*old(w)).push(
            (path@, mode, data@),
        ),
{
    let mut header = tar::Header::new_gnu();
    header.set_size(data.len() as u64);
    header.set_mode(mode);
    w.inner.append_data(&mut header, path, data)
}

/// Finishes the archive: `tar::Builder::into_inner` writes the end of the
/// tar stream, `flate2::write::GzEncoder::finish` the end of the gzip stream
/// and hands out the vector. The contract is not proved. It claims that
/// what comes out depends on the entries alone: the headers carry no time
/// and no owner, the gzip stream names no file, no time and no system, and
/// all is written to memory. Whether the call succeeds is not claimed, only
/// named.
#[verifier::external_body]
fn archive_finish(w: ArchiveWriter) -> (r: Result<Vec<u8>, std::io::Error>)
    ensures
        match r {
            Ok(bytes) => tar_gz_bytes(archive_entries(w)) == Some(bytes@),
            Err(_) => tar_gz_bytes(archive_entries(w)) is None,
        },
{
    w.inner.into_inner()?.finish()
}

/// The text of an I/O error, as `std::io::Error`'s `Display` gives it.
/// Nothing is claimed of the text.
#[verifier::external_body]
fn io_error_text(e: &std::io::Error) -> (r: String) {
    e.to_string()
}

fn is_word(c: char) -> (r: bool)
    ensures
        r == is_word_char(c),
{
    ('a' <= c && c <= 'z') || ('A' <= c && c <= 'Z') || ('0' <= c && c <= '9') || c == '_'
}

/// Whether `path` is a plain path.
pub fn is_plain_entry_path(path: &str) -> (r: bool)
    ensures
        r == plain_entry_path(path@),
{
    let n: usize = path.unicode_len();
    if n < 1 || n > 99 {
        return false;
    }
    let mut i: usize = 0;
    while i < n
        invariant
            i <= n,
            n == path@.len(),
            1 <= n <= 99,
            forall|j: int|
                0 <= j < i ==> (is_word_char(#[trigger] path@[j]) || path@[j] == '/' || path@[j]
                    == '.'),
            forall|j: int|
                0 <= j < i && !is_word_char(#[trigger] path@[j]) ==> 0 < j < n - 1 && is_word_char(
                    path@[j - 1],
                ) && is_word_char(path@[j + 1]),
        decreases n - i,
    {
        let c = path.get_char(i);
        if !is_word(c) {
            if c != '/' && c != '.' {
                return false;
            }
            if i == 0 || i == n - 1 {
                return false;
            }
            if !is_word(path.get_char(i - 1)) || !is_word(path.get_char(i + 1)) {
                return false;
            }
        }
        i += 1;
    }
    true
}

/// Builds the archive that holds `entries`, in their order.
///
/// An entry that an archive cannot hold as it is ends the work at once, with
/// its position. Otherwise the entries are written and the archive is
/// finished. The result is the finished archive of exactly these entries
/// wherever there is one, and the failure to write it wherever there is
/// none.
pub fn encode_archive(entries: &Vec<ArchiveEntry>) -> (r: Result<Vec<u8>, ArchiveError>)
    ensures
        r is Ok <==> encoded(entry_views(entries@)) is Some,
        match r {
            Ok(bytes) => encoded(entry_views(entries@)) == Some(bytes@),
            Err(ArchiveError::UnsupportedEntry { index }) => index < entries@.len() && !(
            plain_entry_path(entries@[index as int]@.0) && entries@[index as int]@.1 <= MAX_MODE)
                && all_storable(entry_views(entries@).take(index as int)),
            Err(ArchiveError::Write { .. }) => all_storable(entry_views(entries@)) && encoded(
                entry_views(entries@),
            ) is None,
        },
{
    let ghost views = entry_views(entries@);
    let mut i: usize = 0;
    while i < entries.len()
        invariant
            i <= entries.len(),
            views == entry_views(entries@),
            all_storable(views.take(i as int)),
        decreases entries.len() - i,
    {
        if !is_plain_entry_path(entries[i].path.as_str()) || entries[i].mode > MAX_MODE {
            assert(views[i as int] == entries@[i as int]@);
            return Err(ArchiveError::UnsupportedEntry { index: i });
        }
        assert(all_storable(views.take(i + 1))) by {
            assert forall|j: int| 0 <= j < i + 1 implies plain_entry_path(
                (#[trigger] views.take(i + 1)[j]).0,
            ) && views.take(i + 1)[j].1 <= MAX_MODE by {
                if j < i {
                    assert(views.take(i as int)[j] == views.take(i + 1)[j]);
                }
            }
        }
        i += 1;
    }
    assert(views.take(i as int) =~= views);
    let mut writer = archive_open();
    let mut k: usize = 0;
    assert(views.take(0) =~= Seq::empty());
    while k < entries.len()
        invariant
            k <= entries.len(),
            views == entry_views(entries@),
            all_storable(views),
            archive_entries(writer) == views.take(k as int),
            appends_accepted(views.take(k as int)),
        decreases entries.len() - k,
    {
        let entry = &entries[k];
        let ghost next = views.take(k + 1);
        assert(views[k as int] == entry@);
        assert(next.drop_last() =~= views.take(k as int));
        assert(next.last() == entry@);
        match archive_append(&mut writer, entry.path.as_str(), entry.mode, entry.data.as_slice()) {
            Ok(_) => {
                assert(views.take(k as int).push(entry@) =~= next);
            },
            Err(e) => {
                proof {
                    assert(!appends_accepted(next));
                    if appends_accepted(views) {
                        lemma_appends_accepted_prefix(views, k + 1);
                    }
                }
                return Err(ArchiveError::Write { cause: io_error_text(&e) });
            },
        }
        k += 1;
    }
    assert(views.take(k as int) =~= views);
    match archive_finish(writer) {
        Ok(bytes) => Ok(bytes),
        Err(e) => Err(ArchiveError::Write { cause: io_error_text(&e) }),
    }
}

} // verus!
