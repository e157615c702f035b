//! The icon manager's decisions: the cache file name of an icon request,
//! the index of cached icons and of requests in flight, and which icon a
//! path found by the file search gets.
use vstd::prelude::*;
use vstd::utf8::encode_utf8;
use dashmap::DashMap;
use crate::text::{ends_with, ends_with_str, str_eq};

verus! {

// ---------------------------------------------------------------------------
// Requests and their cache file names

/// What an icon is asked for.
#[derive(Debug, Clone, PartialEq, Eq)]
pub enum IconRequest {
    /// A local file (exe, lnk, url, ico, png): its own icon.
    Path(String),
    /// A web address: a downloaded or bundled site icon.
    Url(String),
    /// A file extension (.txt, .doc): the system's icon for it.
    Extension(String),
}

pub enum IconRequestView {
    Path(Seq<char>),
    Url(Seq<char>),
    Extension(Seq<char>),
}

impl View for IconRequest {
    type V = IconRequestView;

    open spec fn view(&self) -> IconRequestView {
        match self {
            IconRequest::Path(p) => IconRequestView::Path(p@),
            IconRequest::Url(u) => IconRequestView::Url(u@),
            IconRequest::Extension(e) => IconRequestView::Extension(e@),
        }
    }
}

/// The variant index of a request, as its binary encoding numbers it.
pub open spec fn request_tag(r: IconRequestView) -> u32 {
    match r {
        IconRequestView::Path(_) => 0,
        IconRequestView::Url(_) => 1,
        IconRequestView::Extension(_) => 2,
    }
}

/// The string a request carries.
pub open spec fn request_payload(r: IconRequestView) -> Seq<char> {
    match r {
        IconRequestView::Path(s) => s,
        IconRequestView::Url(s) => s,
        IconRequestView::Extension(s) => s,
    }
}

/// The `k` low bytes of `n`, least significant first.
pub open spec fn le_bytes(n: nat, k: nat) -> Seq<u8>
    decreases k,
{
    if k == 0 {
        seq![]
    } else {
        seq![(n % 256) as u8] + le_bytes(n / 256, (k - 1) as nat)
    }
}

/// An unsigned integer in the variable-length encoding of bincode's
/// standard configuration.
pub open spec fn varint(n: nat) -> Seq<u8> {
    if n <= 250 {
        seq![n as u8]
    } else if n <= 0xffff {
        seq![251u8] + le_bytes(n, 2)
    } else if n <= 0xffff_ffff {
        seq![252u8] + le_bytes(n, 4)
    } else {
        seq![253u8] + le_bytes(n, 8)
    }
}

/// The bincode encoding (standard configuration) of a variant index
/// followed by a string: the index, the string's byte length, its UTF-8
/// bytes. An enum variant that carries one string encodes the same way.
pub open spec fn bincode_tagged_str(tag: u32, s: Seq<char>) -> Seq<u8> {
    varint(tag as nat) + varint(encode_utf8(s).len()) + encode_utf8(s)
}

/// `bincode::encode_to_vec` with `bincode::config::standard()`, applied to
/// the pair of a variant index and a string. The pair encodes as its two
/// fields in order; a `u32` and a length as varints; a string as its
/// length and its UTF-8 bytes. Writing into a vector cannot fail and the
/// standard configuration sets no size limit, so the error arm is never
/// taken.
#[verifier::external_body]
fn bincode_encode_tagged(tag: u32, payload: &String) -> (r: Vec<u8>)
    ensures
        r@ == bincode_tagged_str(tag, payload@),
{
    match bincode::encode_to_vec((tag, payload.as_str()), bincode::config::standard()) {
        Ok(bytes) => bytes,
        Err(_) => Vec::new(),
    }
}

/// The BLAKE3 hash of a byte sequence.
pub uninterp spec fn blake3_digest(input: Seq<u8>) -> Seq<u8>;

/// `blake3::hash`: the 32-byte BLAKE3 digest of the input.
#[verifier::external_body]
fn blake3_hash(input: &[u8]) -> (r: Vec<u8>)
    ensures
        r@ == blake3_digest(input@),
        r@.len() == 32,
{
    blake3::hash(input).as_bytes().to_vec()
}

/// The lowercase hexadecimal digit of `n` (below 16).
pub open spec fn hex_char(n: int) -> char {
    if n == 0 { '0' }
    else if n == 1 { '1' }
    else if n == 2 { '2' }
    else if n == 3 { '3' }
    else if n == 4 { '4' }
    else if n == 5 { '5' }
    else if n == 6 { '6' }
    else if n == 7 { '7' }
    else if n == 8 { '8' }
    else if n == 9 { '9' }
    else if n == 10 { 'a' }
    else if n == 11 { 'b' }
    else if n == 12 { 'c' }
    else if n == 13 { 'd' }
    else if n == 14 { 'e' }
    else { 'f' }
}

/// Lowercase hexadecimal of a byte sequence, high nibble first.
pub open spec fn lower_hex(bytes: Seq<u8>) -> Seq<char>
    decreases bytes.len(),
{
    if bytes.len() == 0 {
        seq![]
    } else {
        lower_hex(bytes.drop_last()) + seq![
            hex_char(bytes.last() as int / 16),
            hex_char(bytes.last() as int % 16),
        ]
    }
}

proof fn lemma_lower_hex_len(bytes: Seq<u8>)
    ensures
        lower_hex(bytes).len() == 2 * bytes.len(),
    decreases bytes.len(),
{
    if bytes.len() > 0 {
        lemma_lower_hex_len(bytes.drop_last());
    }
}

fn hex_digit(n: u8) -> (r: &'static str)
    requires
        n < 16,
    ensures
        r@ == seq![hex_char(n as int)],
{
    proof {
        reveal_strlit("0");
        reveal_strlit("1");
        reveal_strlit("2");
        reveal_strlit("3");
        reveal_strlit("4");
        reveal_strlit("5");
        reveal_strlit("6");
        reveal_strlit("7");
        reveal_strlit("8");
        reveal_strlit("9");
        reveal_strlit("a");
        reveal_strlit("b");
        reveal_strlit("c");
        reveal_strlit("d");
        reveal_strlit("e");
        reveal_strlit("f");
    }
    if n == 0 { "0" }
    else if n == 1 { "1" }
    else if n == 2 { "2" }
    else if n == 3 { "3" }
    else if n == 4 { "4" }
    else if n == 5 { "5" }
    else if n == 6 { "6" }
    else if n == 7 { "7" }
    else if n == 8 { "8" }
    else if n == 9 { "9" }
    else if n == 10 { "a" }
    else if n == 11 { "b" }
    else if n == 12 { "c" }
    else if n == 13 { "d" }
    else if n == 14 { "e" }
    else { "f" }
}

/// The bytes written as lowercase hexadecimal, as BLAKE3's `to_hex` writes
/// a digest.
pub fn to_lower_hex(bytes: &Vec<u8>) -> (r: String)
    ensures
        r@ == lower_hex(bytes@),
{
    let mut s = String::new();
    let mut i: usize = 0;
    while i < bytes.len()
        invariant
            i <= bytes@.len(),
            s@ == lower_hex(bytes@.take(i as int)),
        decreases bytes.len() - i,
    {
        let b = bytes[i];
        s.append(hex_digit(b / 16));
        s.append(hex_digit(b % 16));
        proof {
            let t = bytes@.take(i + 1);
            assert(t.drop_last() =~= bytes@.take(i as int));
            assert(t.last() == b);
        }
        i = i + 1;
    }
    assert(bytes@.take(bytes@.len() as int) =~= bytes@);
    s
}

/// The hash name of a request: the BLAKE3 digest of its bincode encoding,
/// in lowercase hexadecimal.
pub open spec fn icon_hash(r: IconRequestView) -> Seq<char> {
    lower_hex(blake3_digest(bincode_tagged_str(request_tag(r), request_payload(r))))
}

/// The name of the cache file of a request.
pub open spec fn icon_cache_name(r: IconRequestView) -> Seq<char> {
    icon_hash(r) + ".png"@
}

impl IconRequest {
    /// The hash name of the request (see [`icon_hash`]).
    pub fn get_hash_string(&self) -> (r: String)
        ensures
            r@ == icon_hash(self@),
            r@.len() == 64,
    {
        let (tag, payload): (u32, &String) = match self {
            IconRequest::Path(p) => (0, p),
            IconRequest::Url(u) => (1, u),
            IconRequest::Extension(e) => (2, e),
        };
        let encoded = bincode_encode_tagged(tag, payload);
        let digest = blake3_hash(encoded.as_slice());
        proof {
            lemma_lower_hex_len(digest@);
        }
        to_lower_hex(&digest)
    }

    /// The name of the request's cache file.
    pub fn cache_file_name(&self) -> (r: String)
        ensures
            r@ == icon_cache_name(self@),
    {
        let mut name = self.get_hash_string();
        name.append(".png");
        name
    }
}

// ---------------------------------------------------------------------------
// Images to load

/// What the image loader is asked to load.
#[derive(Debug, Clone, PartialEq, Eq)]
pub enum ImageIdentity {
    /// A file on disk.
    File(String),
    /// A web address.
    Web(String),
    /// The system icon of a file extension.
    Extension(String),
}

pub enum ImageIdentityView {
    File(Seq<char>),
    Web(Seq<char>),
    Extension(Seq<char>),
}

impl View for ImageIdentity {
    type V = ImageIdentityView;

    open spec fn view(&self) -> ImageIdentityView {
        match self {
            ImageIdentity::File(s) => ImageIdentityView::File(s@),
            ImageIdentity::Web(s) => ImageIdentityView::Web(s@),
            ImageIdentity::Extension(s) => ImageIdentityView::Extension(s@),
        }
    }
}

// ---------------------------------------------------------------------------
// The index of cached icons and of requests in flight

/// What a time-stamped name map holds: each name with its time stamp in
/// nanoseconds.
pub uninterp spec fn entry_times(m: DashMap<String, u64>) -> Map<Seq<char>, u64>;

pub open spec fn no_times() -> Map<Seq<char>, u64> {
    Map::empty()
}

/// `DashMap::new`: the new map holds nothing.
#[verifier::external_body]
fn times_new() -> (m: DashMap<String, u64>)
    ensures
        entry_times(m) == no_times(),
{
    DashMap::new()
}

/// `DashMap::insert`: afterwards the name maps to the time, every other
/// name is unchanged.
#[verifier::external_body]
fn times_insert(m: &mut DashMap<String, u64>, key: String, time: u64)
    ensures
        entry_times(*final(m)) == entry_times(*old(m)).insert(key@, time),
{
    m.insert(key, time);
}

/// `DashMap::remove`: afterwards the name is absent.
#[verifier::external_body]
fn times_remove(m: &mut DashMap<String, u64>, key: &String)
    ensures
        entry_times(*final(m)) == entry_times(*old(m)).remove(key@),
{
    m.remove(key);
}

/// `DashMap::get`, with the time copied out of the returned reference.
#[verifier::external_body]
fn times_get(m: &DashMap<String, u64>, key: &String) -> (r: Option<u64>)
    ensures
        match r {
            Some(t) => entry_times(*m).contains_key(key@) && entry_times(*m)[key@] == t,
            None => !entry_times(*m).contains_key(key@),
        },
{
    m.get(key).map(|e| *e.value())
}

/// `DashMap::is_empty`: whether the map holds no name.
#[verifier::external_body]
fn times_is_empty(m: &DashMap<String, u64>) -> (r: bool)
    ensures
        r == (entry_times(*m).dom() == Set::<Seq<char>>::empty()),
{
    m.is_empty()
}

/// The state of the icon index, in plain values.
pub struct IconIndexView {
    /// Cache file names with the time they were last written.
    pub cached: Map<Seq<char>, u64>,
    /// Cache file names of requests in flight with the time they started.
    pub pending: Map<Seq<char>, u64>,
    pub enable_icon_cache: bool,
    pub enable_online: bool,
    /// Whole seconds of age at which a cached icon is refreshed in the
    /// background.
    pub refresh_interval: u64,
    pub default_app_icon_path: Seq<char>,
    pub default_web_icon_path: Seq<char>,
}

/// The cache index of the icon manager: which icons have a cache file and
/// when it was written, which requests are being fetched, and the settings
/// that steer a lookup. Time stamps are nanoseconds on a monotonic clock
/// that the caller keeps.
pub struct IconManagerInner {
    default_app_icon_path: String,
    default_web_icon_path: String,
    cached_icons: DashMap<String, u64>,
    pending_requests: DashMap<String, u64>,
    enable_icon_cache: bool,
    enable_online: bool,
    cache_refresh_interval_secs: u64,
}

impl View for IconManagerInner {
    type V = IconIndexView;

    closed spec fn view(&self) -> IconIndexView {
        IconIndexView {
            cached: entry_times(self.cached_icons),
            pending: entry_times(self.pending_requests),
            enable_icon_cache: self.enable_icon_cache,
            enable_online: self.enable_online,
            refresh_interval: self.cache_refresh_interval_secs,
            default_app_icon_path: self.default_app_icon_path@,
            default_web_icon_path: self.default_web_icon_path@,
        }
    }
}

/// The index after a scan of the cache directory found `names` at `now`:
/// every name that ends in `.png` is indexed.
pub open spec fn index_scan(m: Map<Seq<char>, u64>, names: Seq<Seq<char>>, now: u64) -> Map<Seq<char>, u64>
    decreases names.len(),
{
    if names.len() == 0 {
        m
    } else {
        let rest = index_scan(m, names.drop_last(), now);
        if ends_with(names.last(), ".png"@) {
            rest.insert(names.last(), now)
        } else {
            rest
        }
    }
}

/// Nanoseconds from `then` to `now`, or 0 when `now` is earlier.
pub open spec fn elapsed_nanos(then: u64, now: u64) -> int {
    if now >= then {
        now - then
    } else {
        0
    }
}

/// Whether an indexed icon is due for a background refresh at `now`: its
/// age, in whole seconds, has reached the refresh interval.
pub open spec fn refresh_due(v: IconIndexView, name: Seq<char>, now: u64) -> bool {
    v.cached.contains_key(name) && elapsed_nanos(v.cached[name], now) / 1_000_000_000 >= v.refresh_interval
}

/// The default icon of a request: the web icon for an address, the
/// application icon otherwise.
pub open spec fn default_icon_path(v: IconIndexView, r: IconRequestView) -> Seq<char> {
    match r {
        IconRequestView::Url(_) => v.default_web_icon_path,
        _ => v.default_app_icon_path,
    }
}

/// What a lookup asks the caller to do next.
pub enum IconLookup {
    /// The index holds the icon: read cache file `hash_name`, and start a
    /// background refresh when `refresh`.
    Cached { hash_name: String, refresh: bool },
    /// Caching is on but the index lacks the icon: look for cache file
    /// `hash_name` on disk, then report a hit or claim the request.
    ProbeDisk { hash_name: String },
    /// The same icon is being fetched already: answer with the default
    /// icon at `default_path`.
    UseDefault { default_path: String },
    /// The request is registered as in flight: fetch the icon, then finish
    /// the request.
    Fetch { hash_name: String },
}

pub enum IconLookupView {
    Cached(Seq<char>, bool),
    ProbeDisk(Seq<char>),
    UseDefault(Seq<char>),
    Fetch(Seq<char>),
}

impl View for IconLookup {
    type V = IconLookupView;

    open spec fn view(&self) -> IconLookupView {
        match self {
            IconLookup::Cached { hash_name, refresh } => IconLookupView::Cached(hash_name@, *refresh),
            IconLookup::ProbeDisk { hash_name } => IconLookupView::ProbeDisk(hash_name@),
            IconLookup::UseDefault { default_path } => IconLookupView::UseDefault(default_path@),
            IconLookup::Fetch { hash_name } => IconLookupView::Fetch(hash_name@),
        }
    }
}

/// The result of fetching an icon.
pub enum FetchedIcon {
    /// The source gave this icon.
    Loaded(Vec<u8>),
    /// The source gave nothing: load the default icon at this path.
    LoadDefault(String),
}

pub enum FetchedIconView {
    Loaded(Seq<u8>),
    LoadDefault(Seq<char>),
}

impl View for FetchedIcon {
    type V = FetchedIconView;

    open spec fn view(&self) -> FetchedIconView {
        match self {
            FetchedIcon::Loaded(d) => FetchedIconView::Loaded(d@),
            FetchedIcon::LoadDefault(p) => FetchedIconView::LoadDefault(p@),
        }
    }
}

/// Claiming a request: a duplicate of a request in flight is answered with
/// the default icon; otherwise the request is registered as in flight.
pub open spec fn claim_step(v: IconIndexView, r: IconRequestView, name: Seq<char>, now: u64) -> (
    IconIndexView,
    IconLookupView,
) {
    if v.pending.contains_key(name) {
        (v, IconLookupView::UseDefault(default_icon_path(v, r)))
    } else {
        (IconIndexView { pending: v.pending.insert(name, now), ..v }, IconLookupView::Fetch(name))
    }
}

/// The first step of an icon lookup.
pub open spec fn lookup_step(v: IconIndexView, r: IconRequestView, now: u64) -> (
    IconIndexView,
    IconLookupView,
) {
    let name = icon_cache_name(r);
    if v.enable_icon_cache && v.cached.contains_key(name) {
        (v, IconLookupView::Cached(name, refresh_due(v, name, now)))
    } else if v.enable_icon_cache {
        (v, IconLookupView::ProbeDisk(name))
    } else {
        claim_step(v, r, name, now)
    }
}

impl IconManagerInner {
    /// A new index with both switches on and a refresh interval of ten
    /// minutes, holding every `.png` file of `cache_dir_files`, stamped `now`.
    pub fn new(
        default_app_icon_path: String,
        default_web_icon_path: String,
        cache_dir_files: Vec<String>,
        now: u64,
    ) -> (r: IconManagerInner)
        ensures
            r@.cached == index_scan(no_times(), cache_dir_files@.map_values(|f: String| f@), now),
            r@.pending == no_times(),
            r@.enable_icon_cache,
            r@.enable_online,
            r@.refresh_interval == 600,
            r@.default_app_icon_path == default_app_icon_path@,
            r@.default_web_icon_path == default_web_icon_path@,
    {
        let mut inner = IconManagerInner {
            default_app_icon_path,
            default_web_icon_path,
            enable_icon_cache: true,
            enable_online: true,
            cached_icons: times_new(),
            pending_requests: times_new(),
            cache_refresh_interval_secs: 600,
        };
        inner.index_cached_files(cache_dir_files, now);
        inner
    }

    /// Indexes the `.png` files that a scan of the cache directory found.
    pub fn index_cached_files(&mut self, file_names: Vec<String>, now: u64)
        ensures
            final(self)@ == (IconIndexView {
                cached: index_scan(old(self)@.cached, file_names@.map_values(|f: String| f@), now),
                ..old(self)@
            }),
    {
        let ghost names = file_names@.map_values(|f: String| f@);
        let mut i: usize = 0;
        while i < file_names.len()
            invariant
                i <= file_names@.len(),
                names == file_names@.map_values(|f: String| f@),
                self@ == (IconIndexView {
                    cached: index_scan(old(self)@.cached, names.take(i as int), now),
                    ..old(self)@
                }),
            decreases file_names.len() - i,
        {
            let name = &file_names[i];
            proof {
                assert(names.take(i + 1).drop_last() =~= names.take(i as int));
                assert(names.take(i + 1).last() == name@);
            }
            if ends_with_str(name.as_str(), ".png") {
                times_insert(&mut self.cached_icons, name.clone(), now);
            }
            i = i + 1;
        }
        assert(names.take(file_names@.len() as int) =~= names);
    }

    /// Applies the icon settings; returns whether a background scan of the
    /// cache directory is to start (caching is on and nothing is indexed).
    pub fn load_from_config(&mut self, enable_icon_cache: bool, enable_online: bool) -> (r: bool)
        ensures
            final(self)@ == (IconIndexView { enable_icon_cache, enable_online, ..old(self)@ }),
            r == (enable_icon_cache && old(self)@.cached.dom() == Set::<Seq<char>>::empty()),
    {
        self.enable_icon_cache = enable_icon_cache;
        self.enable_online = enable_online;
        enable_icon_cache && times_is_empty(&self.cached_icons)
    }

    /// Whether caching is on.
    pub fn icon_cache_enabled(&self) -> (r: bool)
        ensures
            r == self@.enable_icon_cache,
    {
        self.enable_icon_cache
    }

    /// Whether the cached icon `hash_name` is due for a background refresh
    /// at `now`.
    pub fn should_refresh_cache(&self, hash_name: &String, now: u64) -> (r: bool)
        ensures
            r == refresh_due(self@, hash_name@, now),
    {
        match times_get(&self.cached_icons, hash_name) {
            Some(last_updated) => {
                let elapsed = if now >= last_updated { now - last_updated } else { 0 };
                elapsed / 1_000_000_000 >= self.cache_refresh_interval_secs
            },
            None => false,
        }
    }

    /// The path of the default icon of a request.
    pub fn get_default_icon(&self, request: &IconRequest) -> (r: String)
        ensures
            r@ == default_icon_path(self@, request@),
    {
        match request {
            IconRequest::Url(_) => self.default_web_icon_path.clone(),
            _ => self.default_app_icon_path.clone(),
        }
    }

    /// The first step of an icon lookup at `now` (see [`lookup_step`]).
    pub fn get_icon(&mut self, request: &IconRequest, now: u64) -> (r: IconLookup)
        ensures
            (final(self)@, r@) == lookup_step(old(self)@, request@, now),
    {
        let hash_name = request.cache_file_name();
        if self.enable_icon_cache {
            if times_get(&self.cached_icons, &hash_name).is_some() {
                let refresh = self.should_refresh_cache(&hash_name, now);
                return IconLookup::Cached { hash_name, refresh };
            }
            return IconLookup::ProbeDisk { hash_name };
        }
        self.claim_request(request, hash_name, now)
    }

    /// A cache file that the index lacked was found on disk at `now`: index
    /// it, and return whether it is due for a background refresh.
    pub fn disk_hit(&mut self, hash_name: String, now: u64) -> (r: bool)
        ensures
            final(self)@ == (IconIndexView { cached: old(self)@.cached.insert(hash_name@, now), ..old(self)@ }),
            r == refresh_due(final(self)@, hash_name@, now),
            r == (old(self)@.refresh_interval == 0),
    {
        let name = hash_name.clone();
        times_insert(&mut self.cached_icons, hash_name, now);
        self.should_refresh_cache(&name, now)
    }

    /// Claims the fetch of a request whose cache file is `hash_name` (see
    /// [`claim_step`]).
    pub fn claim_request(&mut self, request: &IconRequest, hash_name: String, now: u64) -> (r: IconLookup)
        ensures
            (final(self)@, r@) == claim_step(old(self)@, request@, hash_name@, now),
    {
        if times_get(&self.pending_requests, &hash_name).is_some() {
            let default_path = self.get_default_icon(request);
            return IconLookup::UseDefault { default_path };
        }
        times_insert(&mut self.pending_requests, hash_name.clone(), now);
        IconLookup::Fetch { hash_name }
    }

    /// What to load first for a claimed request: the file, the web address
    /// (only while online lookups are on), or the extension's icon; `None`
    /// means that the default icon is to be used at once. When what is
    /// loaded is empty, the default icon of the request is used instead.
    pub fn fetch_source(&self, request: &IconRequest) -> (r: Option<ImageIdentity>)
        ensures
            match request@ {
                IconRequestView::Path(p) => r matches Some(i) && i@ == ImageIdentityView::File(p),
                IconRequestView::Url(u) => if self@.enable_online {
                    r matches Some(i) && i@ == ImageIdentityView::Web(u)
                } else {
                    r is None
                },
                IconRequestView::Extension(e) => r matches Some(i) && i@ == ImageIdentityView::Extension(e),
            },
    {
        match request {
            IconRequest::Path(p) => Some(ImageIdentity::File(p.clone())),
            IconRequest::Url(u) => {
                if self.enable_online {
                    Some(ImageIdentity::Web(u.clone()))
                } else {
                    None
                }
            },
            IconRequest::Extension(e) => Some(ImageIdentity::Extension(e.clone())),
        }
    }

    /// What a fetch yields, given what its source loaded (empty when the
    /// source was skipped or failed): the loaded icon, or else the request's
    /// default icon, which is then to be loaded and marked as a default.
    pub fn settle_fetch(&self, request: &IconRequest, loaded: Vec<u8>) -> (r: FetchedIcon)
        ensures
            loaded@.len() > 0 ==> r@ == FetchedIconView::Loaded(loaded@),
            loaded@.len() == 0 ==> r@ == FetchedIconView::LoadDefault(default_icon_path(self@, request@)),
    {
        if loaded.len() > 0 {
            FetchedIcon::Loaded(loaded)
        } else {
            FetchedIcon::LoadDefault(self.get_default_icon(request))
        }
    }

    /// The fetch of `hash_name` is over: it is no longer in flight.
    pub fn finish_request(&mut self, hash_name: &String)
        ensures
            final(self)@ == (IconIndexView { pending: old(self)@.pending.remove(hash_name@), ..old(self)@ }),
    {
        times_remove(&mut self.pending_requests, hash_name);
    }

    /// Whether a fetched icon is written to the cache: caching is on, the
    /// icon is not a default one, and it is not empty.
    pub fn should_save_to_cache(&self, is_default: bool, icon_data: &Vec<u8>) -> (r: bool)
        ensures
            r == (self@.enable_icon_cache && !is_default && icon_data@.len() > 0),
    {
        self.enable_icon_cache && !is_default && icon_data.len() > 0
    }

    /// The cache file `hash_name` was written at `now`.
    pub fn record_cached(&mut self, hash_name: String, now: u64)
        ensures
            final(self)@ == (IconIndexView { cached: old(self)@.cached.insert(hash_name@, now), ..old(self)@ }),
    {
        times_insert(&mut self.cached_icons, hash_name, now);
    }

    /// Starts a background refresh of `hash_name` at `now`, unless a fetch
    /// of it is in flight; returns whether it started.
    pub fn begin_refresh(&mut self, hash_name: &String, now: u64) -> (r: bool)
        ensures
            r == !old(self)@.pending.contains_key(hash_name@),
            r ==> final(self)@ == (IconIndexView {
                pending: old(self)@.pending.insert(hash_name@, now),
                ..old(self)@
            }),
            !r ==> final(self)@ == old(self)@,
    {
        if times_get(&self.pending_requests, hash_name).is_some() {
            return false;
        }
        times_insert(&mut self.pending_requests, hash_name.clone(), now);
        true
    }
}

/// The first check of replacing a program's cached icon: the cache must be
/// on. Gives the name of the cache file to overwrite.
pub open spec fn icon_update_target(v: IconIndexView, r: IconRequestView) -> Result<Seq<char>, Seq<char>> {
    if v.enable_icon_cache {
        Ok(icon_cache_name(r))
    } else {
        Err("Icon cache is disabled"@)
    }
}

impl IconManagerInner {
    /// Where a new icon for `icon_request` is written: the request's cache
    /// file, or the error that the cache is off.
    pub fn begin_icon_cache_update(&self, icon_request: &IconRequest) -> (r: Result<String, String>)
        ensures
            match r {
                Ok(n) => icon_update_target(self@, icon_request@) == Ok::<Seq<char>, Seq<char>>(n@),
                Err(e) => icon_update_target(self@, icon_request@) == Err::<Seq<char>, Seq<char>>(e@),
            },
            self@.enable_icon_cache <==> r is Ok,
            r matches Ok(n) ==> n@ == icon_hash(icon_request@) + ".png"@,
    {
        if !self.enable_icon_cache {
            return Err(String::from_str("Icon cache is disabled"));
        }
        Ok(icon_request.cache_file_name())
    }
}

/// The second check of replacing a program's cached icon: the new source
/// must have loaded as a non-empty image.
pub fn check_new_icon(icon_data: &Vec<u8>) -> (r: Result<(), String>)
    ensures
        icon_data@.len() > 0 ==> r is Ok,
        icon_data@.len() == 0 ==> (r matches Err(e) && e@ == "Failed to load new icon"@),
{
    if icon_data.len() == 0 {
        return Err(String::from_str("Failed to load new icon"));
    }
    Ok(())
}

/// What a background refresh loads: the request's own source, even while
/// online lookups are off.
pub fn refresh_source(request: &IconRequest) -> (r: ImageIdentity)
    ensures
        r@ == match request@ {
            IconRequestView::Path(p) => ImageIdentityView::File(p),
            IconRequestView::Url(u) => ImageIdentityView::Web(u),
            IconRequestView::Extension(e) => ImageIdentityView::Extension(e),
        },
{
    match request {
        IconRequest::Path(p) => ImageIdentity::File(p.clone()),
        IconRequest::Url(u) => ImageIdentity::Web(u.clone()),
        IconRequest::Extension(e) => ImageIdentity::Extension(e.clone()),
    }
}

/// A request in flight is answered with the default icon when it is asked
/// for again, and registering, then finishing a fetch leaves the requests
/// in flight as they were.
pub proof fn lemma_claim_then_finish(v: IconIndexView, r: IconRequestView, name: Seq<char>, now: u64)
    ensures
        v.pending.contains_key(name) ==> claim_step(v, r, name, now) == (v, IconLookupView::UseDefault(
            default_icon_path(v, r),
        )),
        !v.pending.contains_key(name) ==> claim_step(v, r, name, now).0.pending.remove(name) == v.pending,
        !v.pending.contains_key(name) ==> ({
            let v2 = claim_step(v, r, name, now).0;
            claim_step(v2, r, name, now) == (v2, IconLookupView::UseDefault(default_icon_path(v2, r)))
        }),
{
    if !v.pending.contains_key(name) {
        assert(v.pending.insert(name, now).remove(name) =~= v.pending);
    }
}

/// A lookup never changes the index of cached icons; an indexed icon with
/// caching on is answered from the cache without a fetch; with caching off
/// every lookup fetches or answers with the default icon.
pub proof fn lemma_lookup_keeps_cache(v: IconIndexView, r: IconRequestView, now: u64)
    ensures
        lookup_step(v, r, now).0.cached == v.cached,
        !v.enable_icon_cache ==> (lookup_step(v, r, now).1 is Fetch || lookup_step(v, r, now).1 is UseDefault),
        v.enable_icon_cache && v.cached.contains_key(icon_cache_name(r)) ==> lookup_step(v, r, now)
            == (v, IconLookupView::Cached(icon_cache_name(r), refresh_due(v, icon_cache_name(r), now))),
{
}

// ---------------------------------------------------------------------------
// Icons for paths found by the file search

/// The lowercase form of a string, as `str::to_lowercase` gives it (by
/// Unicode's lowercase mapping, which may turn one character into several
/// and lowers a final sigma by its context).
pub uninterp spec fn lowercase(s: Seq<char>) -> Seq<char>;

/// `str::to_lowercase`.
#[verifier::external_body]
fn to_lowercase(s: &str) -> (r: String)
    ensures
        r@ == lowercase(s@),
{
    s.to_lowercase()
}

/// The extension that `Path::extension` gives for a path: the part of the
/// file name after its last `.`, if any. What counts as the file name
/// follows the path rules of the target the program is built for, which
/// are fixed for a build, so the result depends on the path string alone.
pub uninterp spec fn path_ext(path: Seq<char>) -> Option<Seq<char>>;

/// An optional string, by its characters.
pub open spec fn opt_chars(o: Option<String>) -> Option<Seq<char>> {
    match o {
        Some(e) => Some(e@),
        None => None,
    }
}

/// `Path::extension` of the path, as a string (see [`path_ext`]). An
/// extension follows the file name's last `.`, so it holds no `.`.
#[verifier::external_body]
fn path_extension(path: &str) -> (r: Option<String>)
    ensures
        opt_chars(r) == path_ext(path@),
        r matches Some(e) ==> !e@.contains('.'),
{
    std::path::Path::new(path).extension().and_then(|e| e.to_str()).map(|e| e.to_string())
}

/// Extensions whose icon is shared by all files of the type and cached.
pub open spec fn common_extensions() -> Seq<Seq<char>> {
    seq![
        ".txt"@, ".doc"@, ".docx"@, ".pdf"@, ".xls"@, ".xlsx"@, ".ppt"@, ".pptx"@, ".zip"@, ".rar"@,
        ".7z"@, ".tar"@, ".gz"@, ".csv"@, ".json"@, ".xml"@, ".md"@, ".rtf"@, ".odt"@,
    ]
}

/// Extensions of images, which are shown scaled down.
pub open spec fn image_extensions() -> Seq<Seq<char>> {
    seq![".png"@, ".jpg"@, ".jpeg"@, ".gif"@, ".bmp"@, ".webp"@, ".tiff"@, ".tif"@, ".svg"@]
}

/// How the icon of a path found by the file search is obtained.
pub enum EverythingIconPlan {
    /// Through the icon cache, with this request.
    Icon(IconRequest),
    /// Load the file's own icon, uncached.
    LoadFile,
    /// Load the image itself, uncached, scaled down to at most 256 by 256
    /// when it loads.
    LoadResized,
}

pub enum EverythingIconPlanView {
    Icon(IconRequestView),
    LoadFile,
    LoadResized,
}

impl View for EverythingIconPlan {
    type V = EverythingIconPlanView;

    open spec fn view(&self) -> EverythingIconPlanView {
        match self {
            EverythingIconPlan::Icon(r) => EverythingIconPlanView::Icon(r@),
            EverythingIconPlan::LoadFile => EverythingIconPlanView::LoadFile,
            EverythingIconPlan::LoadResized => EverythingIconPlanView::LoadResized,
        }
    }
}

/// The plan for a path, given its lowercase form and its lowercase
/// extension with a leading `.`: folders share the folder icon; common
/// document types share their type's icon; executables, shortcuts and
/// internet shortcuts load their own icon; images load scaled down; any
/// other file loads its own icon.
pub open spec fn everything_plan(path_lower: Seq<char>, dotted_ext: Option<Seq<char>>, is_dir: bool) -> EverythingIconPlanView {
    if is_dir {
        EverythingIconPlanView::Icon(IconRequestView::Extension("folder"@))
    } else if dotted_ext is Some && common_extensions().contains(dotted_ext->0) {
        EverythingIconPlanView::Icon(IconRequestView::Extension(dotted_ext->0))
    } else if ends_with(path_lower, ".exe"@) || ends_with(path_lower, ".lnk"@) || ends_with(path_lower, ".url"@) {
        EverythingIconPlanView::LoadFile
    } else if exists|i: int| 0 <= i < image_extensions().len() && ends_with(path_lower, #[trigger] image_extensions()[i]) {
        EverythingIconPlanView::LoadResized
    } else {
        EverythingIconPlanView::LoadFile
    }
}

fn is_common_extension(ext: &str) -> (r: bool)
    ensures
        r == common_extensions().contains(ext@),
{
    let list: Vec<&str> = vec![
        ".txt", ".doc", ".docx", ".pdf", ".xls", ".xlsx", ".ppt", ".pptx", ".zip", ".rar", ".7z",
        ".tar", ".gz", ".csv", ".json", ".xml", ".md", ".rtf", ".odt",
    ];
    assert(list@.map_values(|s: &str| s@) =~= common_extensions());
    let mut i: usize = 0;
    while i < list.len()
        invariant
            i <= list@.len(),
            list@.map_values(|s: &str| s@) == common_extensions(),
            forall|j: int| 0 <= j < i ==> common_extensions()[j] != ext@,
        decreases list.len() - i,
    {
        if str_eq(list[i], ext) {
            assert(common_extensions()[i as int] == ext@);
            return true;
        }
        i = i + 1;
    }
    false
}

fn has_image_extension(path_lower: &str) -> (r: bool)
    ensures
        r == exists|i: int| 0 <= i < image_extensions().len() && ends_with(path_lower@, #[trigger] image_extensions()[i]),
{
    let list: Vec<&str> = vec![".png", ".jpg", ".jpeg", ".gif", ".bmp", ".webp", ".tiff", ".tif", ".svg"];
    assert(list@.map_values(|s: &str| s@) =~= image_extensions());
    let mut i: usize = 0;
    while i < list.len()
        invariant
            i <= list@.len(),
            list@.map_values(|s: &str| s@) == image_extensions(),
            forall|j: int| 0 <= j < i ==> !ends_with(path_lower@, #[trigger] image_extensions()[j]),
        decreases list.len() - i,
    {
        if ends_with_str(path_lower, list[i]) {
            assert(ends_with(path_lower@, image_extensions()[i as int]));
            return true;
        }
        i = i + 1;
    }
    false
}

/// The plan for a path, given its lowercase form, its lowercase extension
/// with a leading `.`, and whether it is a folder (see [`everything_plan`]).
pub fn classify_everything_path(path_lower: &str, dotted_ext: &Option<String>, is_dir: bool) -> (r: EverythingIconPlan)
    ensures
        r@ == everything_plan(
            path_lower@,
            match dotted_ext {
                Some(e) => Some(e@),
                None => None,
            },
            is_dir,
        ),
{
    if is_dir {
        return EverythingIconPlan::Icon(IconRequest::Extension(String::from_str("folder")));
    }
    if let Some(ext) = dotted_ext {
        if is_common_extension(ext.as_str()) {
            return EverythingIconPlan::Icon(IconRequest::Extension(ext.clone()));
        }
    }
    if ends_with_str(path_lower, ".exe") || ends_with_str(path_lower, ".lnk") || ends_with_str(path_lower, ".url") {
        return EverythingIconPlan::LoadFile;
    }
    if has_image_extension(path_lower) {
        return EverythingIconPlan::LoadResized;
    }
    EverythingIconPlan::LoadFile
}

/// The lowercase extension with a leading `.`, of an extension.
pub open spec fn dotted_lowercase(ext: Option<Seq<char>>) -> Option<Seq<char>> {
    match ext {
        Some(e) => Some("."@ + lowercase(e)),
        None => None,
    }
}

/// The plan for a path found by the file search; `is_dir` tells whether it
/// is a folder (see [`everything_plan`]).
pub fn get_everything_icon(path: &String, is_dir: bool) -> (r: EverythingIconPlan)
    ensures
        r@ == everything_plan(lowercase(path@), dotted_lowercase(path_ext(path@)), is_dir),
{
    let path_lower = to_lowercase(path.as_str());
    let ext = path_extension(path.as_str());
    let dotted = match &ext {
        Some(e) => {
            let mut d = String::from_str(".");
            let lower = to_lowercase(e.as_str());
            d.append(lower.as_str());
            Some(d)
        },
        None => None,
    };
    classify_everything_path(path_lower.as_str(), &dotted, is_dir)
}

/// With caching on, the file an icon update overwrites is the very cache
/// file that a lookup of the same request reads: once it is indexed, the
/// lookup answers from it. With caching off the update is refused.
pub proof fn lemma_icon_update_target_is_looked_up(v: IconIndexView, r: IconRequestView, written: u64, now: u64)
    ensures
        v.enable_icon_cache ==> ({
            let n = icon_update_target(v, r)->Ok_0;
            let v2 = IconIndexView { cached: v.cached.insert(n, written), ..v };
            &&& icon_update_target(v, r) is Ok
            &&& n == icon_hash(r) + ".png"@
            &&& lookup_step(v2, r, now).1 matches IconLookupView::Cached(h, _) && h == n
            &&& lookup_step(v2, r, now).0 == v2
        }),
        !v.enable_icon_cache ==> icon_update_target(v, r) is Err,
{
}

proof fn lemma_ends_with_last(s: Seq<char>, suffix: Seq<char>)
    requires
        ends_with(s, suffix),
        suffix.len() > 0,
    ensures
        s.len() > 0,
        s.last() == suffix.last(),
{
    assert(s.subrange(s.len() - suffix.len(), s.len() as int)[suffix.len() - 1] == s[s.len() - 1]);
}

/// A path that is not a folder, whose lowercase form ends in an image
/// extension (.png, .jpg, .jpeg, .gif, .bmp, .webp, .tiff, .tif or .svg)
/// and whose extension is not a common document type, is loaded as an
/// image and scaled down.
pub proof fn lemma_images_are_resized(path_lower: Seq<char>, dotted_ext: Option<Seq<char>>, is_dir: bool)
    requires
        !is_dir,
        ends_with(path_lower, ".png"@) || ends_with(path_lower, ".jpg"@) || ends_with(path_lower, ".jpeg"@)
            || ends_with(path_lower, ".gif"@) || ends_with(path_lower, ".bmp"@) || ends_with(
            path_lower,
            ".webp"@,
        ) || ends_with(path_lower, ".tiff"@) || ends_with(path_lower, ".tif"@) || ends_with(
            path_lower,
            ".svg"@,
        ),
        dotted_ext is None || !common_extensions().contains(dotted_ext->0),
    ensures
        everything_plan(path_lower, dotted_ext, is_dir) == EverythingIconPlanView::LoadResized,
{
    reveal_strlit(".png");
    reveal_strlit(".jpg");
    reveal_strlit(".jpeg");
    reveal_strlit(".gif");
    reveal_strlit(".bmp");
    reveal_strlit(".webp");
    reveal_strlit(".tiff");
    reveal_strlit(".tif");
    reveal_strlit(".svg");
    reveal_strlit(".exe");
    reveal_strlit(".lnk");
    reveal_strlit(".url");
    let i: int = if ends_with(path_lower, ".png"@) {
        0
    } else if ends_with(path_lower, ".jpg"@) {
        1
    } else if ends_with(path_lower, ".jpeg"@) {
        2
    } else if ends_with(path_lower, ".gif"@) {
        3
    } else if ends_with(path_lower, ".bmp"@) {
        4
    } else if ends_with(path_lower, ".webp"@) {
        5
    } else if ends_with(path_lower, ".tiff"@) {
        6
    } else if ends_with(path_lower, ".tif"@) {
        7
    } else {
        8
    };
    let ext = image_extensions()[i];
    assert(ends_with(path_lower, ext));
    lemma_ends_with_last(path_lower, ext);
    let c = path_lower.last();
    assert(c == 'g' || c == 'f' || c == 'p');
    if ends_with(path_lower, ".exe"@) {
        lemma_ends_with_last(path_lower, ".exe"@);
    }
    if ends_with(path_lower, ".lnk"@) {
        lemma_ends_with_last(path_lower, ".lnk"@);
    }
    if ends_with(path_lower, ".url"@) {
        lemma_ends_with_last(path_lower, ".url"@);
    }
}

/// A folder always gets the shared folder icon.
pub proof fn lemma_folders_share_icon(path_lower: Seq<char>, dotted_ext: Option<Seq<char>>)
    ensures
        everything_plan(path_lower, dotted_ext, true) == EverythingIconPlanView::Icon(IconRequestView::Extension("folder"@)),
{
}

/// A file whose extension is a common document or archive type (.txt,
/// .doc, .docx, .pdf, .xls, .xlsx, .ppt, .pptx, .zip, .rar, .7z, .tar,
/// .gz, .csv, .json, .xml, .md, .rtf, .odt) gets the shared icon of its
/// type, through the icon cache.
pub proof fn lemma_common_types_share_icon(path_lower: Seq<char>, ext: Seq<char>)
    requires
        ext == ".txt"@ || ext == ".doc"@ || ext == ".docx"@ || ext == ".pdf"@ || ext == ".xls"@ || ext == ".xlsx"@ || ext == ".ppt"@ || ext == ".pptx"@ || ext == ".zip"@ || ext == ".rar"@ || ext == ".7z"@ || ext == ".tar"@ || ext == ".gz"@ || ext == ".csv"@ || ext == ".json"@ || ext == ".xml"@ || ext == ".md"@ || ext == ".rtf"@ || ext == ".odt"@,
    ensures
        everything_plan(path_lower, Some(ext), false) == EverythingIconPlanView::Icon(IconRequestView::Extension(ext)),
{
    let k: int = if ext == ".txt"@ {
        0
    } else if ext == ".doc"@ {
        1
    } else if ext == ".docx"@ {
        2
    } else if ext == ".pdf"@ {
        3
    } else if ext == ".xls"@ {
        4
    } else if ext == ".xlsx"@ {
        5
    } else if ext == ".ppt"@ {
        6
    } else if ext == ".pptx"@ {
        7
    } else if ext == ".zip"@ {
        8
    } else if ext == ".rar"@ {
        9
    } else if ext == ".7z"@ {
        10
    } else if ext == ".tar"@ {
        11
    } else if ext == ".gz"@ {
        12
    } else if ext == ".csv"@ {
        13
    } else if ext == ".json"@ {
        14
    } else if ext == ".xml"@ {
        15
    } else if ext == ".md"@ {
        16
    } else if ext == ".rtf"@ {
        17
    } else {
        18
    };
    assert(common_extensions()[k] == ext);
}

/// A file that is not of a common type and ends in `.exe`, `.lnk` or `.url`
/// loads its own icon, uncached.
pub proof fn lemma_programs_load_own_icon(path_lower: Seq<char>, dotted_ext: Option<Seq<char>>)
    requires
        ends_with(path_lower, ".exe"@) || ends_with(path_lower, ".lnk"@) || ends_with(path_lower, ".url"@),
        dotted_ext is None || !common_extensions().contains(dotted_ext->0),
    ensures
        everything_plan(path_lower, dotted_ext, false) == EverythingIconPlanView::LoadFile,
{
}

} // verus!
