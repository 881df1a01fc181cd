use std::io::Read;
use vstd::prelude::*;
use vstd::utf8::{decode_utf8, valid_utf8};
use crate::error::{BundleError, BundleErrorView};
use crate::manifest::{
    decode_tokens, manifest_result, read_manifest_from_string, text_views, xml_event_stream,
    Manifest, ManifestView,
};
use crate::text::{contains, ends_with, text_contains, text_ends_with};

verus! {

#[verifier::external_type_specification]
#[verifier::external_body]
#[verifier::reject_recursive_types(R)]
pub struct ExZipArchive<R>(zip::ZipArchive<R>);

#[verifier::external_type_specification]
#[verifier::external_body]
#[verifier::reject_recursive_types(T)]
pub struct ExCursor<T>(std::io::Cursor<T>);

#[verifier::external_type_specification]
#[verifier::external_body]
pub struct ExZipError(zip::result::ZipError);

/// One entry of an archive: its name, its sizes as the archive states them,
/// and its data, `None` where the data cannot be read.
pub struct EntryView {
    pub name: Seq<char>,
    pub compressed_size: u64,
    pub size: u64,
    pub data: Option<Seq<u8>>,
}

/// The name and the sizes of an entry.
#[derive(Debug, Clone, PartialEq, Eq)]
pub struct EntryRecord {
    pub name: String,
    pub compressed_size: u64,
    pub size: u64,
}

impl EntryView {
    /// `record` holds the name and the sizes of this entry.
    pub open spec fn has_record(self, record: EntryRecord) -> bool {
        &&& record.name@ == self.name
        &&& record.compressed_size == self.compressed_size
        &&& record.size == self.size
    }
}

/// The entries of an open archive, in the order of its directory; `None`
/// stands for an entry that cannot be opened.
pub uninterp spec fn archive_entries(archive: zip::ZipArchive<std::io::Cursor<Vec<u8>>>) -> Seq<
    Option<EntryView>,
>;

/// The entries of the archive that `bytes` hold, or `None` where `bytes`
/// hold no archive that `zip::ZipArchive::new` accepts.
pub uninterp spec fn zip_directory(bytes: Seq<u8>) -> Option<Seq<Option<EntryView>>>;

/// Calls `zip::ZipArchive::new` on a cursor over `bytes`. The contract claims
/// that whether the archive opens, and what entries it then has, depends on
/// the bytes alone, and names that `zip_directory`.
#[verifier::external_body]
fn open_archive(bytes: Vec<u8>) -> (r: Result<
    zip::ZipArchive<std::io::Cursor<Vec<u8>>>,
    zip::result::ZipError,
>)
    ensures
        match r {
            Ok(archive) => zip_directory(bytes@) == Some(archive_entries(archive)),
            Err(_) => zip_directory(bytes@) is None,
        },
{
    zip::ZipArchive::new(std::io::Cursor::new(bytes))
}

/// Calls `ZipArchive::len`: the number of entries in the archive's directory.
#[verifier::external_body]
fn archive_len(archive: &zip::ZipArchive<std::io::Cursor<Vec<u8>>>) -> (n: usize)
    ensures
        n == archive_entries(*archive).len(),
{
    archive.len()
}

/// Opens the entry at `index` with `ZipArchive::by_index` and copies out its
/// name and sizes (`ZipFile::name`, `compressed_size`, `size`). The entry
/// counts as one that cannot be opened where `by_index` returns an error, where
/// `index` is past the last entry, and where `by_index_decrypt` with an empty
/// password reports a wrong password: the last is asked first, because
/// `by_index` does not return on an entry that declares an AES cipher without
/// being marked as encrypted. Opening an entry leaves the entries as they are.
#[verifier::external_body]
fn entry_record(archive: &mut zip::ZipArchive<std::io::Cursor<Vec<u8>>>, index: usize) -> (r:
    Option<EntryRecord>)
    ensures
        archive_entries(*final(archive)) == archive_entries(*old(archive)),
        match r {
            Some(record) => {
                &&& index < archive_entries(*old(archive)).len()
                &&& archive_entries(*old(archive))[index as int] matches Some(entry)
                &&& entry.has_record(record)
            },
            None => index >= archive_entries(*old(archive)).len() || archive_entries(
                *old(archive),
            )[index as int] is None,
        },
{
    if let Ok(Err(_)) = archive.by_index_decrypt(index, &[]) {
        return None;
    }
    match archive.by_index(index) {
        Ok(file) => Some(
            EntryRecord {
                name: file.name().to_string(),
                compressed_size: file.compressed_size(),
                size: file.size(),
            },
        ),
        Err(_) => None,
    }
}

/// Opens the entry at `index` as `entry_record` does and reads its data to
/// the end (`Read::read_to_end` on the `ZipFile`). The result is `None` where
/// the entry cannot be opened and where reading fails, as it does when the
/// data is damaged or does not match its checksum.
#[verifier::external_body]
fn entry_data(archive: &mut zip::ZipArchive<std::io::Cursor<Vec<u8>>>, index: usize) -> (r: Option<
    Vec<u8>,
>)
    ensures
        archive_entries(*final(archive)) == archive_entries(*old(archive)),
        match r {
            Some(data) => {
                &&& index < archive_entries(*old(archive)).len()
                &&& archive_entries(*old(archive))[index as int] matches Some(entry)
                &&& entry.data == Some(data@)
            },
            None => index < archive_entries(*old(archive)).len() ==> (archive_entries(
                *old(archive),
            )[index as int] matches Some(entry) ==> entry.data is None),
        },
{
    if let Ok(Err(_)) = archive.by_index_decrypt(index, &[]) {
        return None;
    }
    let mut data = Vec::new();
    match archive.by_index(index) {
        Ok(mut file) => file.read_to_end(&mut data).ok().map(|_| data),
        Err(_) => None,
    }
}

/// Calls `String::from_utf8`: the text that `bytes` encode, or `None` where
/// they are not valid UTF-8.
#[verifier::external_body]
fn text_of_bytes(bytes: Vec<u8>) -> (r: Option<String>)
    ensures
        match r {
            Some(text) => valid_utf8(bytes@) && text@ == decode_utf8(bytes@),
            None => !valid_utf8(bytes@),
        },
{
    match String::from_utf8(bytes) {
        Ok(text) => Some(text),
        Err(_) => None,
    }
}

// ---------------------------------------------------------------------------
// What a bundle holds
// ---------------------------------------------------------------------------

/// What the library looks for in a bundle by name.
#[derive(Debug, Clone, Copy, PartialEq, Eq)]
pub enum EntryKind {
    /// The manifest: a name that ends with `.nuspec`.
    Manifest,
    /// The self-updater: a name that ends with `Squirrel.exe`.
    Updater,
    /// The splash image: a name that holds `splashimage`.
    Splash,
}

/// A name is one of that kind.
pub open spec fn has_kind(name: Seq<char>, kind: EntryKind) -> bool {
    match kind {
        EntryKind::Manifest => ends_with(name, ".nuspec"@),
        EntryKind::Updater => ends_with(name, "Squirrel.exe"@),
        EntryKind::Splash => contains(name, "splashimage"@),
    }
}

/// The entry at `at` can be opened and has a name of that kind.
pub open spec fn is_of_kind(entries: Seq<Option<EntryView>>, kind: EntryKind, at: int) -> bool {
    &&& 0 <= at < entries.len()
    &&& entries[at] matches Some(entry)
    &&& has_kind(entry.name, kind)
}

/// `at` is the first entry that can be opened and has a name of that kind.
pub open spec fn is_first_of_kind(entries: Seq<Option<EntryView>>, kind: EntryKind, at: int) -> bool {
    &&& is_of_kind(entries, kind, at)
    &&& forall|j: int| 0 <= j < at ==> !is_of_kind(entries, kind, j)
}

/// The first entry that can be opened and has a name of that kind.
pub open spec fn first_of_kind(entries: Seq<Option<EntryView>>, kind: EntryKind) -> Option<int> {
    if exists|at: int| is_of_kind(entries, kind, at) {
        Some(choose|at: int| is_first_of_kind(entries, kind, at))
    } else {
        None
    }
}

/// The first entry of a kind is the only index that is the first.
pub proof fn lemma_first_of_kind(entries: Seq<Option<EntryView>>, kind: EntryKind, at: int)
    requires
        is_first_of_kind(entries, kind, at),
    ensures
        first_of_kind(entries, kind) == Some(at),
{
    let found = choose|i: int| is_first_of_kind(entries, kind, i);
    assert(is_first_of_kind(entries, kind, found));
    if found < at {
        assert(!is_of_kind(entries, kind, found));
    }
    if at < found {
        assert(!is_of_kind(entries, kind, at));
    }
}

/// Where an entry of a kind stands at `at`, one of them is the first.
proof fn lemma_some_of_kind_is_first(entries: Seq<Option<EntryView>>, kind: EntryKind, at: int)
    requires
        is_of_kind(entries, kind, at),
    ensures
        exists|first: int| is_first_of_kind(entries, kind, first),
    decreases at,
{
    if exists|j: int| 0 <= j < at && is_of_kind(entries, kind, j) {
        let before = choose|j: int| 0 <= j < at && is_of_kind(entries, kind, j);
        lemma_some_of_kind_is_first(entries, kind, before);
    } else {
        assert(is_first_of_kind(entries, kind, at));
    }
}

/// What `first_of_kind` gives is an entry of that kind, and the first: it
/// can be opened, its name is of the kind, and no entry before it is such.
pub proof fn lemma_first_of_kind_is_first(entries: Seq<Option<EntryView>>, kind: EntryKind)
    ensures
        first_of_kind(entries, kind) matches Some(at) ==> is_first_of_kind(entries, kind, at),
        first_of_kind(entries, kind) is None ==> forall|j: int| !is_of_kind(entries, kind, j),
{
    if exists|at: int| is_of_kind(entries, kind, at) {
        let at = choose|at: int| is_of_kind(entries, kind, at);
        lemma_some_of_kind_is_first(entries, kind, at);
    }
}

/// The sum of the compressed sizes of those of the first `n` entries that
/// can be opened.
pub open spec fn compressed_total(entries: Seq<Option<EntryView>>, n: nat) -> nat
    decreases n,
{
    if n == 0 {
        0
    } else {
        compressed_total(entries, (n - 1) as nat) + match entries[n - 1] {
            Some(entry) => entry.compressed_size as nat,
            None => 0,
        }
    }
}

/// The sum of the sizes of those of the first `n` entries that can be opened.
pub open spec fn uncompressed_total(entries: Seq<Option<EntryView>>, n: nat) -> nat
    decreases n,
{
    if n == 0 {
        0
    } else {
        uncompressed_total(entries, (n - 1) as nat) + match entries[n - 1] {
            Some(entry) => entry.size as nat,
            None => 0,
        }
    }
}

/// `n`, or the largest 64-bit number where `n` is larger.
pub open spec fn capped(n: nat) -> u64 {
    if n <= u64::MAX {
        n as u64
    } else {
        u64::MAX
    }
}

/// The splash image of a bundle: the data of the first entry whose name holds
/// `splashimage`, if there is such an entry, its data can be read and is not
/// empty.
pub open spec fn splash_of(entries: Seq<Option<EntryView>>) -> Option<Seq<u8>> {
    match first_of_kind(entries, EntryKind::Splash) {
        None => None,
        Some(at) => match entries[at]->0.data {
            Some(data) if data.len() > 0 => Some(data),
            _ => None,
        },
    }
}

/// The manifest of a bundle: what the text of the first entry whose name ends
/// with `.nuspec` holds.
pub open spec fn manifest_of(entries: Seq<Option<EntryView>>) -> Result<
    ManifestView,
    BundleErrorView,
> {
    match first_of_kind(entries, EntryKind::Manifest) {
        None => Err(BundleErrorView::MissingManifest),
        Some(at) => match entries[at]->0.data {
            None => Err(BundleErrorView::UnreadableEntry(at as usize)),
            Some(data) => if valid_utf8(data) {
                decode_tokens(xml_event_stream(decode_utf8(data)))
            } else {
                Err(BundleErrorView::InvalidText(at as usize))
            },
        },
    }
}

/// The names of the entries, where each can be opened.
pub open spec fn names_of(entries: Seq<Option<EntryView>>) -> Seq<Seq<char>> {
    Seq::new(entries.len(), |i: int| entries[i]->0.name)
}

/// The first entry that cannot be opened.
pub open spec fn is_first_unreadable(entries: Seq<Option<EntryView>>, at: int) -> bool {
    &&& 0 <= at < entries.len()
    &&& entries[at] is None
    &&& forall|j: int| 0 <= j < at ==> #[trigger] entries[j] is Some
}

/// Where a bundle came from, for a copy of it to be made.
#[derive(Debug, Clone, PartialEq, Eq)]
pub enum BundleSource {
    /// The file at this path.
    File(String),
    /// These bytes in memory.
    Memory(Vec<u8>),
}

/// A `BundleSource` with its path as a sequence of characters.
pub enum BundleSourceView {
    File(Seq<char>),
    Memory(Seq<u8>),
}

impl View for BundleSource {
    type V = BundleSourceView;

    open spec fn view(&self) -> BundleSourceView {
        match self {
            BundleSource::File(path) => BundleSourceView::File(path@),
            BundleSource::Memory(bytes) => BundleSourceView::Memory(bytes@),
        }
    }
}

/// An open bundle: an archive with a package in it.
pub struct BundleInfo {
    zip: zip::ZipArchive<std::io::Cursor<Vec<u8>>>,
    source: BundleSource,
}

impl BundleInfo {
    /// The entries of the bundle, in the order of the archive's directory;
    /// `None` stands for an entry that cannot be opened.
    pub closed spec fn entries(&self) -> Seq<Option<EntryView>> {
        archive_entries(self.zip)
    }

    /// Where the bundle came from.
    pub closed spec fn origin(&self) -> BundleSourceView {
        self.source@
    }

    /// The number of entries.
    pub fn len(&self) -> (n: usize)
        ensures
            n == self.entries().len(),
    {
        archive_len(&self.zip)
    }

    /// The name and the sizes of the entry at `index`, or `None` where it
    /// cannot be opened or `index` is past the last entry.
    pub fn entry(&mut self, index: usize) -> (r: Option<EntryRecord>)
        ensures
            final(self).entries() == old(self).entries(),
            final(self).origin() == old(self).origin(),
            match r {
                Some(record) => {
                    &&& index < old(self).entries().len()
                    &&& old(self).entries()[index as int] matches Some(entry)
                    &&& entry.has_record(record)
                },
                None => index >= old(self).entries().len() || old(self).entries()[index as int]
                    is None,
            },
    {
        entry_record(&mut self.zip, index)
    }

    /// The sums of the compressed and of the uncompressed sizes of the entries
    /// that can be opened, each capped at the largest 64-bit number.
    pub fn calculate_size(&mut self) -> (r: (u64, u64))
        ensures
            final(self).entries() == old(self).entries(),
            final(self).origin() == old(self).origin(),
            r.0 == capped(compressed_total(old(self).entries(), old(self).entries().len())),
            r.1 == capped(uncompressed_total(old(self).entries(), old(self).entries().len())),
    {
        let mut total_uncompressed_size: u64 = 0;
        let mut total_compressed_size: u64 = 0;
        let n = self.len();
        let mut i: usize = 0;
        while i < n
            invariant
                i <= n,
                n == self.entries().len(),
                self.entries() == old(self).entries(),
                self.origin() == old(self).origin(),
                total_compressed_size == capped(compressed_total(self.entries(), i as nat)),
                total_uncompressed_size == capped(uncompressed_total(self.entries(), i as nat)),
            decreases n - i,
        {
            if let Some(record) = self.entry(i) {
                total_uncompressed_size = total_uncompressed_size.saturating_add(record.size);
                total_compressed_size = total_compressed_size.saturating_add(
                    record.compressed_size,
                );
            }
            i += 1;
        }
        (total_compressed_size, total_uncompressed_size)
    }

    /// The first entry that can be opened and whose name `predicate` accepts:
    /// `predicate` said no to the name of every entry before it that can be
    /// opened, and to all of them where the result is `None`.
    pub fn find_zip_file<F: Fn(&str) -> bool>(&mut self, predicate: F) -> (r: Option<usize>)
        requires
            forall|name: &str| call_requires(predicate, (name,)),
        ensures
            final(self).entries() == old(self).entries(),
            final(self).origin() == old(self).origin(),
            r matches Some(at) ==> {
                &&& at < old(self).entries().len()
                &&& old(self).entries()[at as int] matches Some(entry)
                &&& was_asked(predicate, entry.name, true)
            },
            forall|j: int|
                0 <= j < searched(r, old(self).entries()) ==> (#[trigger] old(self).entries()[j]
                    matches Some(entry) ==> was_asked(predicate, entry.name, false)),
    {
        let n = self.len();
        let mut i: usize = 0;
        while i < n
            invariant
                i <= n,
                n == self.entries().len(),
                self.entries() == old(self).entries(),
                self.origin() == old(self).origin(),
                forall|name: &str| call_requires(predicate, (name,)),
                forall|j: int|
                    0 <= j < i ==> (#[trigger] self.entries()[j] matches Some(entry) ==> was_asked(
                        predicate,
                        entry.name,
                        false,
                    )),
            decreases n - i,
        {
            if let Some(record) = self.entry(i) {
                let name = record.name.as_str();
                let verdict = predicate(name);
                assert(was_asked(predicate, self.entries()[i as int]->0.name, verdict));
                if verdict {
                    return Some(i);
                }
            }
            i += 1;
        }
        None
    }
}

/// How many entries a search looked at in vain: those before the one it
/// found, or all of them.
pub open spec fn searched(found: Option<usize>, entries: Seq<Option<EntryView>>) -> int {
    match found {
        Some(at) => at as int,
        None => entries.len() as int,
    }
}

/// `predicate` was called on the text `name` and gave `verdict`.
pub open spec fn was_asked<F: Fn(&str) -> bool>(predicate: F, name: Seq<char>, verdict: bool) -> bool {
    exists|text: &str| text@ == name && call_ensures(predicate, (text,), verdict)
}


/// Whether a name is one of that kind.
pub fn name_has_kind(name: &str, kind: EntryKind) -> (r: bool)
    ensures
        r == has_kind(name@, kind),
{
    match kind {
        EntryKind::Manifest => text_ends_with(name, ".nuspec"),
        EntryKind::Updater => text_ends_with(name, "Squirrel.exe"),
        EntryKind::Splash => text_contains(name, "splashimage"),
    }
}

impl BundleInfo {
    /// The first entry that can be opened and has a name of that kind.
    pub fn find_entry(&mut self, kind: EntryKind) -> (r: Option<usize>)
        ensures
            final(self).entries() == old(self).entries(),
            final(self).origin() == old(self).origin(),
            match r {
                Some(at) => {
                    &&& first_of_kind(old(self).entries(), kind) == Some(at as int)
                    &&& is_first_of_kind(old(self).entries(), kind, at as int)
                },
                None => first_of_kind(old(self).entries(), kind) is None,
            },
    {
        let n = self.len();
        let mut i: usize = 0;
        while i < n
            invariant
                i <= n,
                n == self.entries().len(),
                self.entries() == old(self).entries(),
                self.origin() == old(self).origin(),
                forall|j: int| 0 <= j < i ==> !is_of_kind(self.entries(), kind, j),
            decreases n - i,
        {
            if let Some(record) = self.entry(i) {
                if name_has_kind(record.name.as_str(), kind) {
                    proof {
                        lemma_first_of_kind(self.entries(), kind, i as int);
                    }
                    return Some(i);
                }
            }
            i += 1;
        }
        None
    }

    /// The data of the entry at `index`.
    pub fn read_entry(&mut self, index: usize) -> (r: Result<Vec<u8>, BundleError>)
        ensures
            final(self).entries() == old(self).entries(),
            final(self).origin() == old(self).origin(),
            match r {
                Ok(data) => {
                    &&& index < old(self).entries().len()
                    &&& old(self).entries()[index as int] matches Some(entry)
                    &&& entry.data == Some(data@)
                },
                Err(e) => {
                    &&& e == BundleError::UnreadableEntry(index)
                    &&& index < old(self).entries().len() ==> (old(self).entries()[index as int]
                        matches Some(entry) ==> entry.data is None)
                },
            },
    {
        match entry_data(&mut self.zip, index) {
            Some(data) => Ok(data),
            None => Err(BundleError::UnreadableEntry(index)),
        }
    }

    /// The names of all entries, in the order of the archive, or the first
    /// entry that cannot be opened.
    pub fn get_file_names(&mut self) -> (r: Result<Vec<String>, BundleError>)
        ensures
            final(self).entries() == old(self).entries(),
            final(self).origin() == old(self).origin(),
            match r {
                Ok(names) => {
                    &&& forall|j: int|
                        0 <= j < old(self).entries().len() ==> #[trigger] old(self).entries()[j]
                            is Some
                    &&& text_views(names@) == names_of(old(self).entries())
                },
                Err(e) => exists|at: int|
                    is_first_unreadable(old(self).entries(), at) && e
                        == BundleError::UnreadableEntry(at as usize),
            },
    {
        let mut files: Vec<String> = Vec::new();
        let n = self.len();
        let mut i: usize = 0;
        while i < n
            invariant
                i <= n,
                n == self.entries().len(),
                self.entries() == old(self).entries(),
                self.origin() == old(self).origin(),
                files.len() == i,
                forall|j: int| 0 <= j < i ==> #[trigger] self.entries()[j] is Some,
                forall|j: int| 0 <= j < i ==> (#[trigger] files@[j])@ == self.entries()[j]->0.name,
            decreases n - i,
        {
            match self.entry(i) {
                Some(record) => {
                    files.push(record.name);
                },
                None => {
                    assert(is_first_unreadable(self.entries(), i as int));
                    return Err(BundleError::UnreadableEntry(i));
                },
            }
            i += 1;
        }
        assert(text_views(files@) =~= names_of(self.entries()));
        Ok(files)
    }

    /// The splash image of the bundle, if it has one that can be read and is
    /// not empty. A bundle without one is no error.
    pub fn get_splash_bytes(&mut self) -> (r: Option<Vec<u8>>)
        ensures
            final(self).entries() == old(self).entries(),
            final(self).origin() == old(self).origin(),
            match r {
                Some(data) => splash_of(old(self).entries()) == Some(data@),
                None => splash_of(old(self).entries()) is None,
            },
    {
        let at = match self.find_entry(EntryKind::Splash) {
            Some(at) => at,
            None => {
                return None;
            },
        };
        match self.read_entry(at) {
            Ok(data) => {
                if data.len() == 0 {
                    None
                } else {
                    Some(data)
                }
            },
            Err(_) => None,
        }
    }

    /// The manifest of the bundle.
    pub fn read_manifest(&mut self) -> (r: Result<Manifest, BundleError>)
        ensures
            final(self).entries() == old(self).entries(),
            final(self).origin() == old(self).origin(),
            manifest_result(r) == manifest_of(old(self).entries()),
            r matches Ok(m) ==> m@.is_valid(),
    {
        let at = match self.find_entry(EntryKind::Manifest) {
            Some(at) => at,
            None => {
                return Err(BundleError::MissingManifest);
            },
        };
        let data = match self.read_entry(at) {
            Ok(data) => data,
            Err(e) => {
                return Err(e);
            },
        };
        match text_of_bytes(data) {
            Some(text) => read_manifest_from_string(text.as_str()),
            None => Err(BundleError::InvalidText(at)),
        }
    }

    /// Where the bundle came from: what a verbatim copy of it is made of.
    pub fn source(&self) -> (r: &BundleSource)
        ensures
            r@ == self.origin(),
    {
        &self.source
    }
}


/// A source of bytes that can be read from its start, as often as asked: a
/// file, or a range of memory.
pub trait ReadSeek {
    /// All bytes of the source, from its start, or `None` where the source
    /// cannot be read.
    fn read_all(&mut self) -> Option<Vec<u8>>;
}

/// A range of memory as a source of bytes.
pub struct MemorySource {
    pub bytes: Vec<u8>,
}

impl ReadSeek for MemorySource {
    fn read_all(&mut self) -> (r: Option<Vec<u8>>)
        ensures
            r matches Some(bytes) && bytes@ == old(self).bytes@,
            final(self).bytes@ == old(self).bytes@,
    {
        Some(self.bytes.clone())
    }
}

/// The bundle that `bytes` hold, kept in memory.
pub fn load_bundle_from_memory(bytes: Vec<u8>) -> (r: Result<BundleInfo, BundleError>)
    ensures
        match r {
            Ok(bundle) => {
                &&& zip_directory(bytes@) == Some(bundle.entries())
                &&& bundle.origin() == BundleSourceView::Memory(bytes@)
            },
            Err(e) => zip_directory(bytes@) is None && e == BundleError::InvalidArchive,
        },
{
    let kept = bytes.clone();
    match open_archive(bytes) {
        Ok(zip) => Ok(BundleInfo { zip, source: BundleSource::Memory(kept) }),
        Err(_) => Err(BundleError::InvalidArchive),
    }
}

/// What loading a bundle from a source gives, for each outcome of reading
/// the source: a source that cannot be read is reported as such; bytes that
/// hold no archive are reported as an invalid archive; else the bundle has
/// the entries that the bytes hold, and remembers the path it came from.
pub fn bundle_of_source_bytes(read: Option<Vec<u8>>, file_path: String) -> (r: Result<
    BundleInfo,
    BundleError,
>)
    ensures
        match r {
            Ok(bundle) => {
                &&& read matches Some(bytes)
                &&& zip_directory(bytes@) == Some(bundle.entries())
                &&& bundle.origin() == BundleSourceView::File(file_path@)
            },
            Err(e) => match read {
                None => e == BundleError::UnreadableSource,
                Some(bytes) => zip_directory(bytes@) is None && e == BundleError::InvalidArchive,
            },
        },
{
    match read {
        None => Err(BundleError::UnreadableSource),
        Some(bytes) => match open_archive(bytes) {
            Ok(zip) => Ok(BundleInfo { zip, source: BundleSource::File(file_path) }),
            Err(_) => Err(BundleError::InvalidArchive),
        },
    }
}

/// The bundle that `source` holds, which is the file at `file_path`. Whatever
/// the source gives when read, the result is what `bundle_of_source_bytes`
/// makes of it.
pub fn load_bundle_from_source<S: ReadSeek>(source: &mut S, file_path: String) -> (r: Result<
    BundleInfo,
    BundleError,
>)
    ensures
        r matches Ok(bundle) ==> bundle.origin() == BundleSourceView::File(file_path@),
        r matches Err(e) ==> e == BundleError::UnreadableSource || e
            == BundleError::InvalidArchive,
{
    let read = source.read_all();
    bundle_of_source_bytes(read, file_path)
}


impl BundleInfo {
    /// The first entry that can be opened and whose name `predicate`
    /// accepts, with its data: `predicate` said no to the name of every entry
    /// before it that can be opened. Fails with `EntryNotFound` where
    /// `predicate` said no to all of them, and with `UnreadableEntry` where
    /// the data of the entry found cannot be read.
    pub fn read_matching<F: Fn(&str) -> bool>(&mut self, predicate: F) -> (r: Result<
        (usize, Vec<u8>),
        BundleError,
    >)
        requires
            forall|name: &str| call_requires(predicate, (name,)),
        ensures
            final(self).entries() == old(self).entries(),
            final(self).origin() == old(self).origin(),
            match r {
                Ok((at, data)) => {
                    &&& at < old(self).entries().len()
                    &&& old(self).entries()[at as int] matches Some(entry)
                    &&& was_asked(predicate, entry.name, true)
                    &&& entry.data == Some(data@)
                    &&& forall|j: int|
                        0 <= j < at ==> (#[trigger] old(self).entries()[j] matches Some(before)
                            ==> was_asked(predicate, before.name, false))
                },
                Err(BundleError::UnreadableEntry(at)) => {
                    &&& at < old(self).entries().len()
                    &&& old(self).entries()[at as int] matches Some(entry)
                    &&& was_asked(predicate, entry.name, true)
                    &&& entry.data is None
                    &&& forall|j: int|
                        0 <= j < at ==> (#[trigger] old(self).entries()[j] matches Some(before)
                            ==> was_asked(predicate, before.name, false))
                },
                Err(e) => {
                    &&& e == BundleError::EntryNotFound
                    &&& forall|j: int|
                        0 <= j < old(self).entries().len() ==> (#[trigger] old(
                            self,
                        ).entries()[j] matches Some(entry) ==> was_asked(
                            predicate,
                            entry.name,
                            false,
                        ))
                },
            },
    {
        let at = match self.find_zip_file(predicate) {
            Some(at) => at,
            None => {
                return Err(BundleError::EntryNotFound);
            },
        };
        match self.read_entry(at) {
            Ok(data) => Ok((at, data)),
            Err(e) => Err(e),
        }
    }
}

/// A bundle has no splash image where no entry is named as one, where the
/// first entry so named has no data, and where its data cannot be read.
pub proof fn lemma_no_splash(entries: Seq<Option<EntryView>>)
    requires
        match first_of_kind(entries, EntryKind::Splash) {
            None => true,
            Some(at) => match entries[at]->0.data {
                None => true,
                Some(data) => data.len() == 0,
            },
        },
    ensures
        splash_of(entries) is None,
{
}

} // verus!
