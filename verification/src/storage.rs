//! The storage manager's decisions: the write-back cache that batches
//! uploads of a file, what a download reads, how a transfer reply is
//! handled, and what the first start of the application does.
use vstd::prelude::*;
use vstd::utf8::{decode_utf8, encode_utf8, valid_utf8};
use vstd::slice::slice_to_vec;
use dashmap::DashMap;

verus! {

/// Name of the file that a connectivity test writes.
pub const TEST_CONFIG_FILE_NAME: &'static str = "zerolaunch-test-link.txt";

/// Contents of the file that a connectivity test writes.
pub const TEST_CONFIG_FILE_DATA: &'static str = "当前文件仅用于测试连通性，可以手动删除";

/// Version of the welcome page; a stored version that differs shows it again.
pub const WELCOME_PAGE_VERSION: &'static str = "1.0.1";

#[verifier::external_type_specification]
#[verifier::external_body]
#[verifier::reject_recursive_types(K)]
#[verifier::reject_recursive_types(V)]
#[verifier::reject_recursive_types(S)]
pub struct ExDashMap<K, V, S>(DashMap<K, V, S>);

/// What a cache map holds: for each file name, the number of writes left
/// before an upload and the latest contents.
pub uninterp spec fn cached_files(m: DashMap<String, (u32, Vec<u8>)>) -> Map<Seq<char>, (u32, Seq<u8>)>;

/// The empty cache contents.
pub open spec fn no_files() -> Map<Seq<char>, (u32, Seq<u8>)> {
    Map::empty()
}

/// `DashMap::new`: the new map holds nothing.
#[verifier::external_body]
fn cache_new() -> (m: DashMap<String, (u32, Vec<u8>)>)
    ensures
        cached_files(m) == no_files(),
{
    DashMap::new()
}

/// `DashMap::insert`: afterwards the key maps to the value, every other key
/// is unchanged.
#[verifier::external_body]
fn cache_insert(m: &mut DashMap<String, (u32, Vec<u8>)>, key: String, counter: u32, data: Vec<u8>)
    ensures
        cached_files(*final(m)) == cached_files(*old(m)).insert(key@, (counter, data@)),
{
    m.insert(key, (counter, data));
}

/// `DashMap::remove`: afterwards the key is absent; the removed value, if
/// the key was present, is returned.
#[verifier::external_body]
fn cache_remove(m: &mut DashMap<String, (u32, Vec<u8>)>, key: &String) -> (r: Option<(u32, Vec<u8>)>)
    ensures
        cached_files(*final(m)) == cached_files(*old(m)).remove(key@),
        match r {
            Some(v) => cached_files(*old(m)).contains_key(key@) && cached_files(*old(m))[key@] == (
            v.0,
            v.1@,
            ),
            None => !cached_files(*old(m)).contains_key(key@),
        },
{
    m.remove(key).map(|(_, v)| v)
}

/// `DashMap::get`, with the value copied out of the returned reference.
#[verifier::external_body]
fn cache_get(m: &DashMap<String, (u32, Vec<u8>)>, key: &String) -> (r: Option<(u32, Vec<u8>)>)
    ensures
        match r {
            Some(v) => cached_files(*m).contains_key(key@) && cached_files(*m)[key@] == (v.0, v.1@),
            None => !cached_files(*m).contains_key(key@),
        },
{
    m.get(key).map(|e| e.value().clone())
}

/// `DashMap::iter`, with each entry copied out: every entry exactly once,
/// in an order that the map's hashing decides.
#[verifier::external_body]
fn cache_entries(m: &DashMap<String, (u32, Vec<u8>)>) -> (r: Vec<(String, (u32, Vec<u8>))>)
    ensures
        r@.len() == cached_files(*m).dom().len(),
        forall|i: int|
            0 <= i < r@.len() ==> cached_files(*m).contains_key(#[trigger] r@[i].0@) && cached_files(
                *m,
            )[r@[i].0@] == (r@[i].1.0, r@[i].1.1@),
        forall|i: int, j: int| 0 <= i < j < r@.len() ==> #[trigger] r@[i].0@ != #[trigger] r@[j].0@,
        forall|k: Seq<char>|
            #[trigger] cached_files(*m).contains_key(k) ==> exists|i: int| 0 <= i < r@.len() && r@[i].0@ == k,
{
    m.iter().map(|e| (e.key().clone(), e.value().clone())).collect()
}

/// `DashMap::clear`: afterwards the map holds nothing.
#[verifier::external_body]
fn cache_clear(m: &mut DashMap<String, (u32, Vec<u8>)>)
    ensures
        cached_files(*final(m)) == no_files(),
{
    m.clear();
}

/// The byte sequence that an optional buffer holds.
pub open spec fn bytes_view(o: Option<Vec<u8>>) -> Option<Seq<u8>> {
    match o {
        Some(v) => Some(v@),
        None => None,
    }
}

/// The text that `String::from_utf8_lossy` makes of a byte sequence.
pub uninterp spec fn utf8_lossy(bytes: Seq<u8>) -> Seq<char>;

/// `String::from_utf8_lossy`, made owned: valid UTF-8 decodes as it is,
/// each invalid sequence becomes U+FFFD.
#[verifier::external_body]
fn decode_lossy(bytes: &[u8]) -> (r: String)
    ensures
        r@ == utf8_lossy(bytes@),
        valid_utf8(bytes@) ==> r@ == decode_utf8(bytes@),
{
    String::from_utf8_lossy(bytes).into_owned()
}

/// The text of downloaded contents, if there are any.
pub fn text_from_bytes(bytes: Option<Vec<u8>>) -> (r: Option<String>)
    ensures
        match bytes {
            Some(b) => r matches Some(t) && t@ == utf8_lossy(b@) && (valid_utf8(b@) ==> t@ == decode_utf8(b@)),
            None => r is None,
        },
{
    match bytes {
        Some(b) => Some(decode_lossy(b.as_slice())),
        None => None,
    }
}

/// Every cached file still owes at least one write before its upload.
pub open spec fn counters_positive(m: Map<Seq<char>, (u32, Seq<u8>)>) -> bool {
    forall|k: Seq<char>| #[trigger] m.contains_key(k) ==> m[k].0 >= 1
}

/// One cached upload of `contents` to `name`, with `save_count` writes per
/// upload: the new cache and the contents that go out now, if any.
pub open spec fn upload_step(
    m: Map<Seq<char>, (u32, Seq<u8>)>,
    save_count: u32,
    name: Seq<char>,
    contents: Seq<u8>,
) -> (Map<Seq<char>, (u32, Seq<u8>)>, Option<Seq<u8>>) {
    if save_count == 0 {
        (m.remove(name), Some(contents))
    } else if m.contains_key(name) {
        if m[name].0 <= 1 {
            (m.remove(name), Some(contents))
        } else {
            (m.insert(name, ((m[name].0 - 1) as u32, contents)), None)
        }
    } else {
        (m.insert(name, (save_count, contents)), None)
    }
}

/// A forced upload of `name`: the new cache and the contents that go out,
/// the given ones or else the cached ones.
pub open spec fn force_step(
    m: Map<Seq<char>, (u32, Seq<u8>)>,
    name: Seq<char>,
    contents: Option<Seq<u8>>,
) -> (Map<Seq<char>, (u32, Seq<u8>)>, Option<Seq<u8>>) {
    (
        m.remove(name),
        match contents {
            Some(c) => Some(c),
            None => if m.contains_key(name) { Some(m[name].1) } else { None },
        },
    )
}

/// The write-back cache of the storage manager: uploads of a file are held
/// back until the file has been written `save_count` more times.
pub struct FileCache {
    cached_content: DashMap<String, (u32, Vec<u8>)>,
}

impl View for FileCache {
    type V = Map<Seq<char>, (u32, Seq<u8>)>;

    closed spec fn view(&self) -> Map<Seq<char>, (u32, Seq<u8>)> {
        cached_files(self.cached_content)
    }
}

impl FileCache {
    /// The cache's invariant: every cached file still owes a write.
    pub open spec fn wf(&self) -> bool {
        counters_positive(self@)
    }

    /// An empty cache.
    pub fn new() -> (r: FileCache)
        ensures
            r@ == no_files(),
            r.wf(),
    {
        FileCache { cached_content: cache_new() }
    }

    /// Records a write of `contents` to `file_name`. With a `save_count` of
    /// 0 the contents go out at once; a file not yet cached is cached with
    /// `save_count` writes owed; a cached file owes one write less, and when
    /// none is left its contents go out and it leaves the cache. Returns the
    /// contents to upload now, if any.
    pub fn upload_file_bytes(&mut self, save_count: u32, file_name: String, contents: Vec<u8>) -> (r:
        Option<Vec<u8>>)
        requires
            old(self).wf(),
        ensures
            final(self).wf(),
            (final(self)@, bytes_view(r)) == upload_step(old(self)@, save_count, file_name@, contents@),
    {
        if save_count == 0 {
            let _ = cache_remove(&mut self.cached_content, &file_name);
            return Some(contents);
        }
        match cache_get(&self.cached_content, &file_name) {
            Some((counter, _)) => {
                if counter <= 1 {
                    let _ = cache_remove(&mut self.cached_content, &file_name);
                    Some(contents)
                } else {
                    cache_insert(&mut self.cached_content, file_name, counter - 1, contents);
                    None
                }
            },
            None => {
                cache_insert(&mut self.cached_content, file_name, save_count, contents);
                None
            },
        }
    }

    /// Records a write of the text `contents`, as its UTF-8 bytes (see
    /// [`FileCache::upload_file_bytes`]).
    pub fn upload_file_str(&mut self, save_count: u32, file_name: String, contents: String) -> (r: Option<
        Vec<u8>,
    >)
        requires
            old(self).wf(),
        ensures
            final(self).wf(),
            (final(self)@, bytes_view(r)) == upload_step(old(self)@, save_count, file_name@, encode_utf8(contents@)),
    {
        let bytes = slice_to_vec(contents.as_str().as_bytes());
        self.upload_file_bytes(save_count, file_name, bytes)
    }

    /// Uploads `file_name` now, past the cache: drops its cache entry and
    /// returns the contents to upload, the given ones or else the cached
    /// ones; `None` when there is nothing to upload.
    pub fn upload_file_bytes_force(&mut self, file_name: &String, contents: Option<Vec<u8>>) -> (r: Option<
        Vec<u8>,
    >)
        requires
            old(self).wf(),
        ensures
            final(self).wf(),
            (final(self)@, bytes_view(r)) == force_step(
                old(self)@,
                file_name@,
                bytes_view(contents),
            ),
            contents is Some ==> bytes_view(r) == bytes_view(contents),
            contents is None ==> (r is Some <==> old(self)@.contains_key(file_name@)),
            contents is None && r is Some ==> r->0@ == old(self)@[file_name@].1,
            !final(self)@.contains_key(file_name@),
    {
        let removed = cache_remove(&mut self.cached_content, file_name);
        match contents {
            Some(c) => Some(c),
            None => match removed {
                Some((_, data)) => Some(data),
                None => None,
            },
        }
    }

    /// Empties the cache, returning every cached file with its contents, each
    /// once, for upload.
    pub fn upload_all_file_force(&mut self) -> (r: Vec<(String, Vec<u8>)>)
        requires
            old(self).wf(),
        ensures
            final(self).wf(),
            final(self)@ == no_files(),
            r@.len() == old(self)@.dom().len(),
            forall|i: int|
                0 <= i < r@.len() ==> old(self)@.contains_key(#[trigger] r@[i].0@) && old(
                    self,
                )@[r@[i].0@].1 == r@[i].1@,
            forall|i: int, j: int| 0 <= i < j < r@.len() ==> #[trigger] r@[i].0@ != #[trigger] r@[j].0@,
            forall|k: Seq<char>|
                #[trigger] old(self)@.contains_key(k) ==> exists|i: int| 0 <= i < r@.len() && r@[i].0@ == k,
    {
        let entries = cache_entries(&self.cached_content);
        let mut out: Vec<(String, Vec<u8>)> = Vec::new();
        let mut i: usize = 0;
        while i < entries.len()
            invariant
                i <= entries@.len(),
                out@.len() == i,
                forall|j: int|
                    0 <= j < i ==> (#[trigger] out@[j]).0 == entries@[j].0 && out@[j].1@ == entries@[j].1.1@,
            decreases entries.len() - i,
        {
            let name = entries[i].0.clone();
            let data = entries[i].1.1.clone();
            out.push((name, data));
            i = i + 1;
        }
        cache_clear(&mut self.cached_content);
        assert forall|k: Seq<char>| #[trigger] old(self)@.contains_key(k) implies exists|i: int|
            0 <= i < out@.len() && out@[i].0@ == k by {
            let i = choose|i: int| 0 <= i < entries@.len() && entries@[i].0@ == k;
            assert(out@[i].0@ == k);
        }
        out
    }

    /// Drops the cache entry of `file_name`, so that the next download
    /// reads the remote copy.
    pub fn download_file_bytes_force(&mut self, file_name: &String)
        requires
            old(self).wf(),
        ensures
            final(self).wf(),
            final(self)@ == old(self)@.remove(file_name@),
    {
        let _ = cache_remove(&mut self.cached_content, file_name);
    }

    /// The cached contents of `file_name` as text; `None` means that the
    /// remote copy is to be read.
    pub fn download_file_str(&self, file_name: &String) -> (r: Option<String>)
        ensures
            match r {
                Some(t) => self@.contains_key(file_name@) && t@ == utf8_lossy(self@[file_name@].1) && (valid_utf8(
                    self@[file_name@].1,
                ) ==> t@ == decode_utf8(self@[file_name@].1)),
                None => !self@.contains_key(file_name@),
            },
    {
        text_from_bytes(self.download_file_bytes(file_name))
    }

    /// The cached contents of `file_name`; `None` means that the remote copy
    /// is to be read.
    pub fn download_file_bytes(&self, file_name: &String) -> (r: Option<Vec<u8>>)
        ensures
            match r {
                Some(v) => self@.contains_key(file_name@) && self@[file_name@].1 == v@,
                None => !self@.contains_key(file_name@),
            },
    {
        match cache_get(&self.cached_content, file_name) {
            Some((_, data)) => Some(data),
            None => None,
        }
    }
}

/// A write that the cache holds back can be read back at once, and a write
/// that goes out leaves no stale copy behind; other files are untouched.
pub proof fn lemma_upload_read_your_write(
    m: Map<Seq<char>, (u32, Seq<u8>)>,
    save_count: u32,
    name: Seq<char>,
    contents: Seq<u8>,
)
    ensures
        ({
            let (m2, sent) = upload_step(m, save_count, name, contents);
            &&& sent is None ==> m2.contains_key(name) && m2[name].1 == contents
            &&& sent is Some ==> sent == Some(contents) && !m2.contains_key(name)
            &&& forall|k: Seq<char>|
                k != name ==> (#[trigger] m2.contains_key(k) == m.contains_key(k) && (m.contains_key(k)
                    ==> m2[k] == m[k]))
        }),
{
}

/// The cache state after the same write of `contents` to `name` has been
/// recorded `k` times, and what the last of them sent.
pub open spec fn repeat_upload(
    m: Map<Seq<char>, (u32, Seq<u8>)>,
    save_count: u32,
    name: Seq<char>,
    contents: Seq<u8>,
    k: nat,
) -> (Map<Seq<char>, (u32, Seq<u8>)>, Option<Seq<u8>>)
    decreases k,
{
    if k == 0 {
        (m, None)
    } else {
        upload_step(repeat_upload(m, save_count, name, contents, (k - 1) as nat).0, save_count, name, contents)
    }
}

/// With `save_count` n of at least 1, a file that is not cached is held back
/// by its first n writes, owing n - k + 1 writes after the k-th, and goes
/// out on write n + 1.
pub proof fn lemma_upload_batches(
    m: Map<Seq<char>, (u32, Seq<u8>)>,
    save_count: u32,
    name: Seq<char>,
    contents: Seq<u8>,
    k: nat,
)
    requires
        !m.contains_key(name),
        save_count >= 1,
        1 <= k <= save_count + 1,
    ensures
        k <= save_count ==> repeat_upload(m, save_count, name, contents, k).1 is None && repeat_upload(
            m,
            save_count,
            name,
            contents,
            k,
        ).0.contains_key(name) && repeat_upload(m, save_count, name, contents, k).0[name].0 == save_count - k
            + 1,
        k == save_count + 1 ==> repeat_upload(m, save_count, name, contents, k).1 == Some(contents)
            && !repeat_upload(m, save_count, name, contents, k).0.contains_key(name),
    decreases k,
{
    if k == 1 {
        assert(repeat_upload(m, save_count, name, contents, 0).0 == m);
    } else {
        lemma_upload_batches(m, save_count, name, contents, (k - 1) as nat);
    }
}

/// Which client the storage manager talks to.
#[derive(Clone, Copy, Debug, PartialEq, Eq, Structural)]
pub enum StorageDestination {
    Local,
    WebDAV,
    OneDrive,
}

/// The storage clients that the manager can build.
#[derive(Clone, Copy, Debug, PartialEq, Eq, Structural)]
pub enum StorageClientKind {
    Local,
    WebDAV,
}

/// The client to build for a destination; `None` for a destination that no
/// client serves (the manager then keeps the client it has, and a
/// validation of such a configuration fails).
pub fn select_storage_client(destination: StorageDestination) -> (r: Option<StorageClientKind>)
    ensures
        r == match destination {
            StorageDestination::Local => Some(StorageClientKind::Local),
            StorageDestination::WebDAV => Some(StorageClientKind::WebDAV),
            StorageDestination::OneDrive => None::<StorageClientKind>,
        },
{
    match destination {
        StorageDestination::Local => Some(StorageClientKind::Local),
        StorageDestination::WebDAV => Some(StorageClientKind::WebDAV),
        _ => None,
    }
}

/// What a storage client answered to an upload or a download.
pub enum TransferReply<T> {
    /// There was no client to ask.
    NoClient,
    /// The client reported an error.
    Failed,
    /// The client answered.
    Succeeded(T),
}

/// What the manager does after a reply.
pub enum TransferStep<T> {
    /// Hand the answer to the caller.
    Finish(T),
    /// Tell the user, fall back to the default configuration, rebuild the
    /// client and send the same request again.
    ResetAndRetry,
}

/// The step after a reply: an answer finishes the transfer; a missing
/// client or an error resets to the default configuration and retries.
pub fn next_transfer_step<T>(reply: TransferReply<T>) -> (r: TransferStep<T>)
    ensures
        match reply {
            TransferReply::Succeeded(v) => r == TransferStep::Finish(v),
            _ => r is ResetAndRetry,
        },
{
    match reply {
        TransferReply::Succeeded(v) => TransferStep::Finish(v),
        TransferReply::NoClient => TransferStep::ResetAndRetry,
        TransferReply::Failed => TransferStep::ResetAndRetry,
    }
}

/// The welcome-page version of this build.
pub fn get_current_welcome_page_version() -> (r: String)
    ensures
        r@ == WELCOME_PAGE_VERSION@,
{
    String::from_str(WELCOME_PAGE_VERSION)
}

/// Whether the welcome page is to be shown for a stored welcome-page
/// version: when none is stored or it differs from this build's.
pub fn check_welcome_page_version_changed(stored_welcome_version: &Option<String>) -> (r: bool)
    ensures
        r == match stored_welcome_version {
            None => true,
            Some(v) => v@ != WELCOME_PAGE_VERSION@,
        },
{
    let current_welcome_version = get_current_welcome_page_version();
    match stored_welcome_version {
        None => true,
        Some(stored_version) => !(*stored_version == current_welcome_version),
    }
}

/// The outcome of reading the local configuration file.
pub enum ConfigFileRead {
    /// The file was read.
    Found(String),
    /// The file does not exist: this is the first start.
    NotFound,
    /// The file exists but could not be read.
    Failed,
}

/// What starting the storage manager does with the local configuration.
pub struct StartupPlan {
    /// The configuration text to parse.
    pub config_text: String,
    /// Whether to write the default configuration to disk.
    pub write_default: bool,
    /// Whether this is the first start of the application.
    pub first_startup: bool,
}

/// The startup plan: a file that was read is used as it is; a missing file
/// means a first start, which writes and uses the default configuration; a
/// file that could not be read falls back to the default without writing.
pub fn plan_startup(read: ConfigFileRead, default_content: String) -> (r: StartupPlan)
    ensures
        match read {
            ConfigFileRead::Found(text) => r.config_text@ == text@ && !r.write_default && !r.first_startup,
            ConfigFileRead::NotFound => r.config_text@ == default_content@ && r.write_default
                && r.first_startup,
            ConfigFileRead::Failed => r.config_text@ == default_content@ && !r.write_default
                && !r.first_startup,
        },
{
    match read {
        ConfigFileRead::Found(text) => StartupPlan { config_text: text, write_default: false, first_startup: false },
        ConfigFileRead::NotFound => StartupPlan {
            config_text: default_content,
            write_default: true,
            first_startup: true,
        },
        ConfigFileRead::Failed => StartupPlan {
            config_text: default_content,
            write_default: false,
            first_startup: false,
        },
    }
}

/// Whether startup shows the welcome page: on the first start, or when the
/// stored welcome-page version is missing or differs from this build's.
pub fn should_show_welcome(first_startup: bool, stored_welcome_version: &Option<String>) -> (r: bool)
    ensures
        r == (first_startup || match stored_welcome_version {
            None => true,
            Some(v) => v@ != WELCOME_PAGE_VERSION@,
        }),
{
    first_startup || check_welcome_page_version_changed(stored_welcome_version)
}

/// A text write that the cache holds back reads back as the same text.
pub proof fn lemma_text_round_trip(
    m: Map<Seq<char>, (u32, Seq<u8>)>,
    save_count: u32,
    name: Seq<char>,
    text: Seq<char>,
)
    requires
        upload_step(m, save_count, name, encode_utf8(text)).1 is None,
    ensures
        upload_step(m, save_count, name, encode_utf8(text)).0.contains_key(name),
        valid_utf8(upload_step(m, save_count, name, encode_utf8(text)).0[name].1),
        decode_utf8(upload_step(m, save_count, name, encode_utf8(text)).0[name].1) == text,
{
    vstd::utf8::encode_utf8_valid_utf8(text);
    vstd::utf8::encode_utf8_decode_utf8(text);
}

/// A forced upload that is given contents sends exactly those contents,
/// whether or not the file is cached; afterwards the cache no longer holds
/// the file and every other file is untouched.
pub proof fn lemma_forced_upload_sends_given_contents(
    m: Map<Seq<char>, (u32, Seq<u8>)>,
    name: Seq<char>,
    contents: Seq<u8>,
)
    ensures
        force_step(m, name, Some(contents)).1 == Some(contents),
        !force_step(m, name, Some(contents)).0.contains_key(name),
        forall|k: Seq<char>|
            k != name ==> (#[trigger] force_step(m, name, Some(contents)).0.contains_key(k) == m.contains_key(k)
                && (m.contains_key(k) ==> force_step(m, name, Some(contents)).0[k] == m[k])),
{
}

/// A forced upload without contents sends the cached contents of the file
/// when it is cached, and nothing when it is not.
pub proof fn lemma_forced_upload_without_contents(m: Map<Seq<char>, (u32, Seq<u8>)>, name: Seq<char>)
    ensures
        m.contains_key(name) ==> force_step(m, name, None).1 == Some(m[name].1),
        !m.contains_key(name) ==> force_step(m, name, None).1 is None,
        !force_step(m, name, None).0.contains_key(name),
{
}

} // verus!
