//! The cache store: per-kind file-name lists, quote and joke blobs, and a
//! key-to-bytes image cache, together with the loader logic that turns raw
//! text content into cached blobs and the shared handle used by concurrent
//! request tasks.

use vstd::prelude::*;

use crate::types::{CacheKey, FileName, ResourceType};

verus! {

/// Images at or above this many bytes are never cached, by either the
/// preload path or the read-through path.
pub const IMAGE_CACHE_LIMIT: usize = 1048576;

#[verifier::external_type_specification]
#[verifier::external_body]
#[verifier::reject_recursive_types(K)]
#[verifier::reject_recursive_types(V)]
#[verifier::reject_recursive_types(S)]
pub struct ExAHashMap<K, V, S>(ahash::AHashMap<K, V, S>);

#[verifier::external_type_specification]
#[verifier::external_body]
pub struct ExARandomState(ahash::RandomState);

/// The entries held by an image map, as a mathematical map from key
/// characters to byte contents.
pub uninterp spec fn image_entries(m: ahash::AHashMap<String, Vec<u8>>) -> Map<Seq<char>, Seq<u8>>;

/// The entry map with nothing in it.
pub open spec fn no_images() -> Map<Seq<char>, Seq<u8>> {
    Map::empty()
}

/// Relies on ahash::AHashMap::new: a freshly created map has no entries.
#[verifier::external_body]
fn image_map_new() -> (r: ahash::AHashMap<String, Vec<u8>>)
    ensures
        image_entries(r) == no_images(),
{
    ahash::AHashMap::new()
}

/// Relies on ahash::AHashMap::get (std HashMap::get underneath): exact-key
/// lookup of the entry stored for `key`.
#[verifier::external_body]
fn image_map_get(m: &ahash::AHashMap<String, Vec<u8>>, key: &str) -> (r: Option<Vec<u8>>)
    ensures
        match r {
            Some(v) => image_entries(*m).contains_key(key@) && v@ == image_entries(*m)[key@],
            None => !image_entries(*m).contains_key(key@),
        },
{
    m.get(key).cloned()
}

/// Relies on ahash::AHashMap::insert (std HashMap::insert underneath):
/// insert-or-overwrite of one entry, leaving every other entry in place.
#[verifier::external_body]
fn image_map_insert(m: &mut ahash::AHashMap<String, Vec<u8>>, key: String, value: Vec<u8>)
    ensures
        image_entries(*final(m)) == image_entries(*old(m)).insert(key@, value@),
{
    m.insert(key, value);
}

/// The mathematical state of a [`FileCache`]: one file-name list per
/// resource kind, the two text lists, and the image map.
pub struct CacheView {
    pub gary_files: Seq<Seq<char>>,
    pub goober_files: Seq<Seq<char>>,
    pub quotes: Seq<Seq<u8>>,
    pub jokes: Seq<Seq<u8>>,
    pub images: Map<Seq<char>, Seq<u8>>,
}

impl CacheView {
    /// The empty state every cache starts in.
    pub open spec fn empty() -> CacheView {
        CacheView {
            gary_files: Seq::empty(),
            goober_files: Seq::empty(),
            quotes: Seq::empty(),
            jokes: Seq::empty(),
            images: Map::empty(),
        }
    }

    /// The file-name list for one resource kind.
    pub open spec fn files(self, resource: ResourceType) -> Seq<Seq<char>> {
        match resource {
            ResourceType::Gary => self.gary_files,
            ResourceType::Goober => self.goober_files,
        }
    }

    /// Whole-list replacement of one kind's file names; every other list and
    /// the image map are untouched.
    pub open spec fn with_files(self, resource: ResourceType, files: Seq<Seq<char>>) -> CacheView {
        match resource {
            ResourceType::Gary => CacheView { gary_files: files, ..self },
            ResourceType::Goober => CacheView { goober_files: files, ..self },
        }
    }

    pub open spec fn with_quotes(self, quotes: Seq<Seq<u8>>) -> CacheView {
        CacheView { quotes, ..self }
    }

    pub open spec fn with_jokes(self, jokes: Seq<Seq<u8>>) -> CacheView {
        CacheView { jokes, ..self }
    }

    /// Insert-or-overwrite of one image entry.
    pub open spec fn with_image(self, key: Seq<char>, bytes: Seq<u8>) -> CacheView {
        CacheView { images: self.images.insert(key, bytes), ..self }
    }

    /// Exact-key lookup in the image map.
    pub open spec fn lookup_image(self, key: Seq<char>) -> Option<Seq<u8>> {
        if self.images.contains_key(key) {
            Some(self.images[key])
        } else {
            None
        }
    }
}

/// The cache store. Readers and writers of the live system share it through
/// [`SharedCache`]; the methods here are the verified state transitions a
/// holder of exclusive access performs.
pub struct FileCache {
    gary_files: Vec<FileName>,
    goober_files: Vec<FileName>,
    quotes: Vec<Vec<u8>>,
    jokes: Vec<Vec<u8>>,
    image_cache: ahash::AHashMap<String, Vec<u8>>,
}

impl View for FileCache {
    type V = CacheView;

    closed spec fn view(&self) -> CacheView {
        CacheView {
            gary_files: self.gary_files.deep_view(),
            goober_files: self.goober_files.deep_view(),
            quotes: self.quotes.deep_view(),
            jokes: self.jokes.deep_view(),
            images: image_entries(self.image_cache),
        }
    }
}

/// Relies on fastrand::usize over the range `..len` (the thread-local
/// generator): the result is a uniformly distributed index below `len`;
/// the call panics on an empty range, which the precondition rules out.
#[verifier::external_body]
fn random_index(len: usize) -> (r: usize)
    requires
        len > 0,
    ensures
        r < len,
{
    fastrand::usize(..len)
}

impl FileCache {
    /// A cache with no file names, no text content and no images.
    pub fn new() -> (r: FileCache)
        ensures
            r@ == CacheView::empty(),
    {
        let r = FileCache {
            gary_files: Vec::new(),
            goober_files: Vec::new(),
            quotes: Vec::new(),
            jokes: Vec::new(),
            image_cache: image_map_new(),
        };
        proof {
            assert(r@.gary_files =~= Seq::<Seq<char>>::empty());
            assert(r@.goober_files =~= Seq::<Seq<char>>::empty());
            assert(r@.quotes =~= Seq::<Seq<u8>>::empty());
            assert(r@.jokes =~= Seq::<Seq<u8>>::empty());
            assert(r@ =~= CacheView::empty());
        }
        r
    }

    fn files_for(&self, resource: ResourceType) -> (r: &Vec<FileName>)
        ensures
            r.deep_view() == self@.files(resource),
    {
        match resource {
            ResourceType::Gary => &self.gary_files,
            ResourceType::Goober => &self.goober_files,
        }
    }

    /// A uniform-random pick from the current list for `resource`; `None`
    /// exactly when that list is empty.
    pub fn get_random_file(&self, resource: ResourceType) -> (r: Option<FileName>)
        ensures
            match r {
                Some(f) => self@.files(resource).contains(f@),
                None => self@.files(resource).len() == 0,
            },
    {
        let files = self.files_for(resource);
        if files.len() == 0 {
            None
        } else {
            let index = random_index(files.len());
            let f = files[index].clone();
            proof {
                assert(self@.files(resource)[index as int] == f@);
            }
            Some(f)
        }
    }

    /// A uniform-random pick from the quote list; `None` exactly when it is
    /// empty.
    pub fn get_random_quote(&self) -> (r: Option<Vec<u8>>)
        ensures
            match r {
                Some(q) => self@.quotes.contains(q@),
                None => self@.quotes.len() == 0,
            },
    {
        if self.quotes.len() == 0 {
            None
        } else {
            let index = random_index(self.quotes.len());
            let q = self.quotes[index].clone();
            proof {
                assert(self@.quotes[index as int] == q@);
            }
            Some(q)
        }
    }

    /// A uniform-random pick from the joke list; `None` exactly when it is
    /// empty.
    pub fn get_random_joke(&self) -> (r: Option<Vec<u8>>)
        ensures
            match r {
                Some(j) => self@.jokes.contains(j@),
                None => self@.jokes.len() == 0,
            },
    {
        if self.jokes.len() == 0 {
            None
        } else {
            let index = random_index(self.jokes.len());
            let j = self.jokes[index].clone();
            proof {
                assert(self@.jokes[index as int] == j@);
            }
            Some(j)
        }
    }

    /// Exact-key lookup of cached image bytes.
    pub fn get_image(&self, key: &CacheKey) -> (r: Option<Vec<u8>>)
        ensures
            match r {
                Some(v) => self@.lookup_image(key@) == Some(v@),
                None => self@.lookup_image(key@) is None,
            },
    {
        image_map_get(&self.image_cache, key.as_str())
    }

    /// Insert-or-overwrite: the last writer for a key wins, and no other key
    /// is evicted.
    pub fn store_image(&mut self, key: CacheKey, data: Vec<u8>)
        ensures
            final(self)@ == old(self)@.with_image(key@, data@),
    {
        let ghost pre = self@;
        let k: String = key.as_str().to_owned();
        image_map_insert(&mut self.image_cache, k, data);
        proof {
            assert(self@ =~= pre.with_image(key@, data@));
        }
    }

    /// The size gate shared by the startup preload and the read-through
    /// path: stores the bytes only when they are below
    /// [`IMAGE_CACHE_LIMIT`].
    pub fn cache_image_if_small(&mut self, key: CacheKey, data: &Vec<u8>)
        ensures
            final(self)@ == if data@.len() < IMAGE_CACHE_LIMIT {
                old(self)@.with_image(key@, data@)
            } else {
                old(self)@
            },
    {
        if data.len() < IMAGE_CACHE_LIMIT {
            self.store_image(key, data.clone());
        }
    }

    /// Atomic whole-list replacement of one kind's file names.
    pub fn update_files(&mut self, resource: ResourceType, files: Vec<FileName>)
        ensures
            final(self)@ == old(self)@.with_files(resource, files.deep_view()),
    {
        let ghost pre = self@;
        match resource {
            ResourceType::Gary => {
                self.gary_files = files;
            },
            ResourceType::Goober => {
                self.goober_files = files;
            },
        }
        proof {
            assert(self@ =~= pre.with_files(resource, files.deep_view()));
        }
    }

    /// Atomic whole-list replacement of the quotes.
    pub fn update_quotes(&mut self, quotes: Vec<Vec<u8>>)
        ensures
            final(self)@ == old(self)@.with_quotes(quotes.deep_view()),
    {
        let ghost pre = self@;
        self.quotes = quotes;
        proof {
            assert(self@ =~= pre.with_quotes(self.quotes.deep_view()));
        }
    }

    /// Atomic whole-list replacement of the jokes.
    pub fn update_jokes(&mut self, jokes: Vec<Vec<u8>>)
        ensures
            final(self)@ == old(self)@.with_jokes(jokes.deep_view()),
    {
        let ghost pre = self@;
        self.jokes = jokes;
        proof {
            assert(self@ =~= pre.with_jokes(self.jokes.deep_view()));
        }
    }

    /// The publish step of initialization: all four lists replaced in one
    /// sweep, images left as they are.
    pub fn apply_initial_load(
        &mut self,
        gary_files: Vec<FileName>,
        goober_files: Vec<FileName>,
        quotes: Vec<Vec<u8>>,
        jokes: Vec<Vec<u8>>,
    )
        ensures
            final(self)@ == old(self)@.with_files(
                ResourceType::Gary,
                gary_files.deep_view(),
            ).with_files(ResourceType::Goober, goober_files.deep_view()).with_quotes(
                quotes.deep_view(),
            ).with_jokes(jokes.deep_view()),
    {
        self.update_files(ResourceType::Gary, gary_files);
        self.update_files(ResourceType::Goober, goober_files);
        self.update_quotes(quotes);
        self.update_jokes(jokes);
    }

    /// Current length of the file list for `resource`.
    pub fn file_count(&self, resource: ResourceType) -> (r: usize)
        ensures
            r == self@.files(resource).len(),
    {
        self.files_for(resource).len()
    }

    /// Current length of the quote list.
    pub fn quote_count(&self) -> (r: usize)
        ensures
            r == self@.quotes.len(),
    {
        self.quotes.len()
    }

    /// Current length of the joke list.
    pub fn joke_count(&self) -> (r: usize)
        ensures
            r == self@.jokes.len(),
    {
        self.jokes.len()
    }
}

/// After replacing the file list of kind `resource` with `files`, the count
/// for that kind is exactly the length of `files`, and every other part of
/// the state is untouched.
pub proof fn lemma_update_files_count(c: CacheView, resource: ResourceType, files: Seq<Seq<char>>)
    ensures
        c.with_files(resource, files).files(resource) == files,
        c.with_files(resource, files).files(resource).len() == files.len(),
        forall|other: ResourceType|
            other != resource ==> c.with_files(resource, files).files(other) == c.files(other),
        c.with_files(resource, files).quotes == c.quotes,
        c.with_files(resource, files).jokes == c.jokes,
        c.with_files(resource, files).images == c.images,
{
}

/// Image lookups are unaffected by list replacement: reading the same key
/// twice with only list updates in between yields equal bytes.
pub proof fn lemma_image_lookup_stable(c: CacheView, key: Seq<char>)
    ensures
        forall|r: ResourceType, l: Seq<Seq<char>>|
            #[trigger] c.with_files(r, l).lookup_image(key) == c.lookup_image(key),
        forall|q: Seq<Seq<u8>>| #[trigger] c.with_quotes(q).lookup_image(key) == c.lookup_image(key),
        forall|j: Seq<Seq<u8>>| #[trigger] c.with_jokes(j).lookup_image(key) == c.lookup_image(key),
{
}

/// The round trip: storing bytes under a key and looking the key up yields
/// exactly those bytes, while every other key keeps its previous answer.
pub proof fn lemma_store_image_round_trip(
    c: CacheView,
    key: Seq<char>,
    bytes: Seq<u8>,
    other: Seq<char>,
)
    ensures
        c.with_image(key, bytes).lookup_image(key) == Some(bytes),
        other != key ==> c.with_image(key, bytes).lookup_image(other) == c.lookup_image(other),
{
}

/// What serde_json's parser yields for `text` when read as a JSON array of
/// strings: the element sequence on success, `None` on any parse failure.
/// The result depends on the text alone.
pub uninterp spec fn spec_parsed_string_list(text: Seq<char>) -> Option<Seq<Seq<char>>>;

/// Relies on serde_json::from_str::<Vec<String>>: deterministic parsing of
/// a JSON array of strings; any error is collapsed to `None`.
#[verifier::external_body]
fn parse_string_list(text: &str) -> (r: Option<Vec<String>>)
    ensures
        match r {
            Some(v) => spec_parsed_string_list(text@) == Some(v.deep_view()),
            None => spec_parsed_string_list(text@) is None,
        },
{
    serde_json::from_str::<Vec<String>>(text).ok()
}

/// The bytes serde_json produces for `s` as a JSON string literal, opening
/// and closing quotes included. The result depends on the characters alone.
pub uninterp spec fn spec_json_quoted(s: Seq<char>) -> Seq<u8>;

/// Relies on serde_json::to_string on a string slice: serialization writes
/// an opening `"`, the escaped characters, and a closing `"`, and cannot
/// fail for a plain string (the output buffer is in memory).
#[verifier::external_body]
fn json_quote(s: &str) -> (r: Vec<u8>)
    ensures
        r@ == spec_json_quoted(s@),
        r@.len() >= 2,
        r@[0] == 34u8,
        r@[r@.len() - 1] == 34u8,
{
    serde_json::to_string(s).unwrap().into_bytes()
}

/// A character the fast escaping path passes through unchanged: ASCII and
/// not a quote, backslash or control character that JSON escapes.
pub open spec fn is_plain_char(c: char) -> bool {
    c <= '\u{7f}' && c != '"' && c != '\\' && c != '\n' && c != '\r' && c != '\t'
}

/// True when every character of `s` is plain.
pub open spec fn all_plain(s: Seq<char>) -> bool {
    forall|i: int| 0 <= i < s.len() ==> is_plain_char(#[trigger] s[i])
}

/// The stored blob for one text entry: the raw UTF-8 bytes when every
/// character is plain, otherwise serde_json's escaping with the outer
/// quotes stripped.
pub open spec fn spec_escaped_blob(s: Seq<char>) -> Seq<u8> {
    if all_plain(s) {
        vstd::utf8::encode_utf8(s)
    } else {
        spec_json_quoted(s).subrange(1, spec_json_quoted(s).len() - 1)
    }
}

/// The blobs stored for a whole text file: one escaped blob per parsed
/// string, or nothing when the file does not parse as an array of strings.
pub open spec fn spec_text_blobs(text: Seq<char>) -> Seq<Seq<u8>> {
    match spec_parsed_string_list(text) {
        Some(lines) => lines.map_values(|l: Seq<char>| spec_escaped_blob(l)),
        None => Seq::empty(),
    }
}

/// The loader: pure conversion of raw text content into cache blobs. The
/// surrounding process hands it file contents and directory listings as
/// plain values and performs the actual reads.
pub struct DefaultCacheLoader;

impl DefaultCacheLoader {
    pub fn new() -> (r: DefaultCacheLoader) {
        DefaultCacheLoader
    }

    /// Escapes one string for embedding inside a JSON string literal:
    /// already-safe ASCII passes through unchanged, everything else goes
    /// through full JSON escaping.
    pub fn escape_json_string(s: &str) -> (r: Vec<u8>)
        ensures
            r@ == spec_escaped_blob(s@),
    {
        let n = s.unicode_len();
        let mut i: usize = 0;
        let mut plain = true;
        while i < n
            invariant
                i <= n,
                n == s@.len(),
                plain ==> forall|j: int| 0 <= j < i ==> is_plain_char(#[trigger] s@[j]),
                !plain ==> !all_plain(s@),
            decreases n - i,
        {
            let c = s.get_char(i);
            if !(c <= '\u{7f}' && c != '"' && c != '\\' && c != '\n' && c != '\r' && c != '\t') {
                plain = false;
                proof {
                    assert(!is_plain_char(s@[i as int]));
                }
            }
            i = i + 1;
        }
        if plain {
            s.as_bytes_vec()
        } else {
            let q = json_quote(s);
            let end = q.len() - 1;
            let mut out: Vec<u8> = Vec::new();
            let mut k: usize = 1;
            while k < end
                invariant
                    1 <= k <= end,
                    end == q@.len() - 1,
                    q@ == spec_json_quoted(s@),
                    out@ =~= q@.subrange(1, k as int),
                decreases end - k,
            {
                out.push(q[k]);
                k = k + 1;
            }
            proof {
                assert(out@ =~= spec_json_quoted(s@).subrange(1, spec_json_quoted(s@).len() - 1));
            }
            out
        }
    }

    /// Parses a text file's content as a JSON array of strings and escapes
    /// each entry; any parse failure yields an empty list.
    pub fn parse_text_content(&self, content: &str) -> (r: Vec<Vec<u8>>)
        ensures
            r.deep_view() == spec_text_blobs(content@),
    {
        match parse_string_list(content) {
            Some(lines) => {
                let mut out: Vec<Vec<u8>> = Vec::new();
                let mut i: usize = 0;
                let n = lines.len();
                while i < n
                    invariant
                        i <= n,
                        n == lines@.len(),
                        spec_parsed_string_list(content@) == Some(lines.deep_view()),
                        out.deep_view() =~~= lines.deep_view().map_values(
                            |l: Seq<char>| spec_escaped_blob(l),
                        ).take(i as int),
                    decreases n - i,
                {
                    let blob = DefaultCacheLoader::escape_json_string(lines[i].as_str());
                    proof {
                        assert(lines.deep_view()[i as int] == lines@[i as int]@);
                    }
                    out.push(blob);
                    proof {
                        assert(out@[i as int].deep_view() =~= spec_escaped_blob(
                            lines@[i as int]@,
                        ));
                        assert(out.deep_view() =~~= lines.deep_view().map_values(
                            |l: Seq<char>| spec_escaped_blob(l),
                        ).take(i as int + 1));
                    }
                    i = i + 1;
                }
                proof {
                    assert(out.deep_view() =~~= spec_text_blobs(content@));
                }
                out
            },
            None => {
                let out: Vec<Vec<u8>> = Vec::new();
                proof {
                    assert(out.deep_view() =~~= spec_text_blobs(content@));
                }
                out
            },
        }
    }
}

/// The lock invariant of the shared cache: every well-typed state is
/// admissible, so acquiring the lock never learns more than the type says.
pub struct CachePred;

impl vstd::rwlock::RwLockPredicate<FileCache> for CachePred {
    open spec fn inv(self, v: FileCache) -> bool {
        true
    }
}

/// Relies on std::sync::Arc::clone: the new handle is the same shared
/// value.
#[verifier::external_body]
fn arc_clone<T>(arc: &std::sync::Arc<T>) -> (r: std::sync::Arc<T>)
    ensures
        r == *arc,
{
    std::sync::Arc::clone(arc)
}

/// A cloneable handle to one cache shared by many concurrent request
/// tasks: vstd's verified reader-writer lock around the [`FileCache`],
/// behind an `Arc`. One exclusive lock guards the whole store; this trades
/// the per-list parallelism a lock-per-list layout would allow for a
/// single, simple discipline. Each operation acquires the lock, runs the
/// verified `FileCache` transition on the guarded state, and releases; the
/// length and index of a random pick are therefore taken under one read
/// section, and a pick can only return a member of the complete list that
/// section saw.
pub struct SharedCache {
    pub(crate) inner: std::sync::Arc<vstd::rwlock::RwLock<FileCache, CachePred>>,
}

impl Clone for SharedCache {
    /// The new handle aliases the same lock and cache.
    fn clone(&self) -> (r: Self) {
        SharedCache { inner: arc_clone(&self.inner) }
    }
}

impl SharedCache {
    /// Wraps the given cache for shared use.
    pub fn new(initial: FileCache) -> (r: SharedCache) {
        SharedCache {
            inner: std::sync::Arc::new(vstd::rwlock::RwLock::new(initial, Ghost(CachePred))),
        }
    }

    /// Runs the verified pick under a shared lock.
    pub fn get_random_file(&self, resource: ResourceType) -> (r: Option<FileName>) {
        let handle = self.inner.acquire_read();
        let r = handle.borrow().get_random_file(resource);
        handle.release_read();
        r
    }

    pub fn get_random_quote(&self) -> (r: Option<Vec<u8>>) {
        let handle = self.inner.acquire_read();
        let r = handle.borrow().get_random_quote();
        handle.release_read();
        r
    }

    pub fn get_random_joke(&self) -> (r: Option<Vec<u8>>) {
        let handle = self.inner.acquire_read();
        let r = handle.borrow().get_random_joke();
        handle.release_read();
        r
    }

    pub fn get_image(&self, key: &CacheKey) -> (r: Option<Vec<u8>>) {
        let handle = self.inner.acquire_read();
        let r = handle.borrow().get_image(key);
        handle.release_read();
        r
    }

    /// Runs the verified insert under an exclusive lock.
    pub fn store_image(&self, key: CacheKey, data: Vec<u8>) {
        let (mut cache, handle) = self.inner.acquire_write();
        cache.store_image(key, data);
        handle.release_write(cache);
    }

    pub fn cache_image_if_small(&self, key: CacheKey, data: &Vec<u8>) {
        let (mut cache, handle) = self.inner.acquire_write();
        cache.cache_image_if_small(key, data);
        handle.release_write(cache);
    }

    pub fn update_files(&self, resource: ResourceType, files: Vec<FileName>) {
        let (mut cache, handle) = self.inner.acquire_write();
        cache.update_files(resource, files);
        handle.release_write(cache);
    }

    pub fn update_quotes(&self, quotes: Vec<Vec<u8>>) {
        let (mut cache, handle) = self.inner.acquire_write();
        cache.update_quotes(quotes);
        handle.release_write(cache);
    }

    pub fn update_jokes(&self, jokes: Vec<Vec<u8>>) {
        let (mut cache, handle) = self.inner.acquire_write();
        cache.update_jokes(jokes);
        handle.release_write(cache);
    }

    /// Publishes all four lists in one exclusive section, so no reader sees
    /// a partially initialized set.
    pub fn apply_initial_load(
        &self,
        gary_files: Vec<FileName>,
        goober_files: Vec<FileName>,
        quotes: Vec<Vec<u8>>,
        jokes: Vec<Vec<u8>>,
    ) {
        let (mut cache, handle) = self.inner.acquire_write();
        cache.apply_initial_load(gary_files, goober_files, quotes, jokes);
        handle.release_write(cache);
    }

    pub fn file_count(&self, resource: ResourceType) -> (r: usize) {
        let handle = self.inner.acquire_read();
        let r = handle.borrow().file_count(resource);
        handle.release_read();
        r
    }

    pub fn quote_count(&self) -> (r: usize) {
        let handle = self.inner.acquire_read();
        let r = handle.borrow().quote_count();
        handle.release_read();
        r
    }

    pub fn joke_count(&self) -> (r: usize) {
        let handle = self.inner.acquire_read();
        let r = handle.borrow().joke_count();
        handle.release_read();
        r
    }
}

} // verus!
