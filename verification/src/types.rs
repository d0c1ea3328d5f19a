//! Identifier types: validated file names, cache keys, directory paths and
//! resource kinds, together with the content-type table derived from file
//! extensions.

use vstd::prelude::*;
use vstd::string::StrSliceExecFns;
use vstd::string::StringExecFns;
use vstd::string::StringSliceAdditionalSpecFns;

verus! {

/// True when the sequence contains a path separator (`/` or `\`).
pub open spec fn has_path_separator(s: Seq<char>) -> bool {
    exists|i: int| 0 <= i < s.len() && (s[i] == '/' || s[i] == '\\')
}

/// A file name is valid when it is non-empty and free of path separators.
/// This is the system's sole defence against path traversal.
pub open spec fn is_valid_file_name(s: Seq<char>) -> bool {
    s.len() > 0 && !has_path_separator(s)
}

/// True when `i` is the position of the last `.` in `s`.
pub open spec fn is_last_dot(s: Seq<char>, i: int) -> bool {
    0 <= i < s.len() && s[i] == '.' && (forall|j: int| i < j < s.len() ==> s[j] != '.')
}

/// A wrapper for file names. Checked construction (`new`) enforces
/// [`is_valid_file_name`]; `new_unchecked` is the explicit trusted bypass for
/// strings that already came from the filesystem rather than the network.
#[derive(Debug, PartialEq, Eq, Hash)]
pub struct FileName(String);

impl View for FileName {
    type V = Seq<char>;

    closed spec fn view(&self) -> Seq<char> {
        self.0@
    }
}

impl DeepView for FileName {
    type V = Seq<char>;

    open spec fn deep_view(&self) -> Seq<char> {
        self.view()
    }
}

impl Clone for FileName {
    fn clone(&self) -> (r: Self)
        ensures
            r@ == self@,
    {
        FileName(self.0.clone())
    }
}

impl FileName {
    /// Checked constructor: rejects strings with path separators, then empty
    /// strings, exactly in that order.
    pub fn new(name: &str) -> (r: Result<FileName, &'static str>)
        ensures
            r is Ok <==> is_valid_file_name(name@),
            r matches Ok(f) ==> f@ == name@,
            r matches Err(m) ==> m@ == if has_path_separator(name@) {
                "File name cannot contain path separators"@
            } else {
                "File name cannot be empty"@
            },
    {
        if contains_path_separator(name) {
            Err("File name cannot contain path separators")
        } else if name.unicode_len() == 0 {
            Err("File name cannot be empty")
        } else {
            Ok(FileName(name.to_owned()))
        }
    }

    /// Trusted bypass for values already known safe, such as directory
    /// listing entries; performs no validation.
    pub fn new_unchecked(name: &str) -> (r: FileName)
        ensures
            r@ == name@,
    {
        FileName(name.to_owned())
    }

    /// The substring strictly after the last `.`, or `None` when the `.` is
    /// absent, first, or last.
    pub fn extension(&self) -> (r: Option<&str>)
        ensures
            match r {
                Some(e) => exists|i: int|
                    #[trigger] is_last_dot(self@, i) && 0 < i < self@.len() - 1 && e@ == self@.skip(
                        i + 1,
                    ),
                None => forall|i: int|
                    #[trigger] is_last_dot(self@, i) ==> !(0 < i < self@.len() - 1),
            },
    {
        let s = self.0.as_str();
        let n = s.unicode_len();
        let mut k = n;
        // Walk backwards looking for the last '.'; k stays one past the
        // candidate position.
        while k > 0
            invariant
                k <= n,
                n == s@.len(),
                s@ == self@,
                forall|j: int| k <= j < n ==> s@[j] != '.',
            decreases k,
        {
            k = k - 1;
            if s.get_char(k) == '.' {
                if k > 0 && k < n - 1 {
                    let e = s.substring_char(k + 1, n);
                    proof {
                        assert(is_last_dot(self@, k as int));
                        assert(e@ =~= self@.skip(k + 1));
                    }
                    return Some(e);
                } else {
                    return None;
                }
            }
        }
        None
    }

    /// The name's bytes in UTF-8, for splicing into response payloads.
    pub fn as_bytes(&self) -> (r: &[u8])
        ensures
            r@ == vstd::utf8::encode_utf8(self@),
    {
        self.0.as_str().as_bytes()
    }

    /// The name as a string slice.
    pub fn as_str(&self) -> (r: &str)
        ensures
            r@ == self@,
    {
        self.0.as_str()
    }
}

/// Scans for `/` or `\`.
fn contains_path_separator(s: &str) -> (r: bool)
    ensures
        r == has_path_separator(s@),
{
    let n = s.unicode_len();
    let mut i: usize = 0;
    while i < n
        invariant
            i <= n,
            n == s@.len(),
            forall|j: int| 0 <= j < i ==> s@[j] != '/' && s@[j] != '\\',
        decreases n - i,
    {
        let c = s.get_char(i);
        if c == '/' || c == '\\' {
            return true;
        }
        i = i + 1;
    }
    false
}

/// An opaque string key for the image byte-cache; in the base design a
/// file name maps to a key by identity.
#[derive(Debug, PartialEq, Eq, Hash)]
pub struct CacheKey(String);

impl View for CacheKey {
    type V = Seq<char>;

    closed spec fn view(&self) -> Seq<char> {
        self.0@
    }
}

impl Clone for CacheKey {
    fn clone(&self) -> (r: Self)
        ensures
            r@ == self@,
    {
        CacheKey(self.0.clone())
    }
}

impl CacheKey {
    pub fn new(key: &str) -> (r: CacheKey)
        ensures
            r@ == key@,
    {
        CacheKey(key.to_owned())
    }

    /// The identity mapping from a file name to its cache key.
    pub fn from_file_name(name: &FileName) -> (r: CacheKey)
        ensures
            r@ == name@,
    {
        CacheKey(name.0.clone())
    }

    pub fn as_str(&self) -> (r: &str)
        ensures
            r@ == self@,
    {
        self.0.as_str()
    }
}

/// A base URL kept as its UTF-8 bytes, ready for splicing into a JSON
/// response body.
#[derive(Debug)]
pub struct BaseUrl(Vec<u8>);

impl View for BaseUrl {
    type V = Seq<u8>;

    closed spec fn view(&self) -> Seq<u8> {
        self.0@
    }
}

impl Clone for BaseUrl {
    fn clone(&self) -> (r: Self)
        ensures
            r@ == self@,
    {
        BaseUrl(self.0.clone())
    }
}

impl BaseUrl {
    pub fn new(url: &str) -> (r: BaseUrl)
        ensures
            r@ == vstd::utf8::encode_utf8(url@),
    {
        BaseUrl(url.as_bytes_vec())
    }

    pub fn as_bytes(&self) -> (r: &[u8])
        ensures
            r@ == self@,
    {
        self.0.as_slice()
    }

    pub fn len(&self) -> (r: usize)
        ensures
            r == self@.len(),
    {
        self.0.len()
    }
}

/// A directory reference; `join` appends a file name with a single `/` and
/// no other normalization.
#[derive(Debug)]
pub struct DirectoryPath(String);

impl View for DirectoryPath {
    type V = Seq<char>;

    closed spec fn view(&self) -> Seq<char> {
        self.0@
    }
}

impl Clone for DirectoryPath {
    fn clone(&self) -> (r: Self)
        ensures
            r@ == self@,
    {
        DirectoryPath(self.0.clone())
    }
}

impl DirectoryPath {
    pub fn new(path: &str) -> (r: DirectoryPath)
        ensures
            r@ == path@,
    {
        DirectoryPath(path.to_owned())
    }

    /// `"{dir}/{filename}"`: deterministic join with a single separator.
    pub fn join(&self, filename: &FileName) -> (r: String)
        ensures
            r@ == self@ + "/"@ + filename@,
    {
        let mut out = self.0.clone();
        out.append("/");
        out.append(filename.as_str());
        proof {
            assert(out@ =~= self@ + "/"@ + filename@);
        }
        out
    }

    pub fn as_str(&self) -> (r: &str)
        ensures
            r@ == self@,
    {
        self.0.as_str()
    }
}

/// The two parallel resource families the system serves identically.
#[derive(Debug, Clone, Copy, PartialEq, Eq)]
pub enum ResourceType {
    Gary,
    Goober,
}

/// The fallback file name substituted when a family's list is empty.
pub open spec fn spec_default_image(resource: ResourceType) -> Seq<char> {
    match resource {
        ResourceType::Gary => "Gary76.jpg"@,
        ResourceType::Goober => "goober8.jpg"@,
    }
}

impl ResourceType {
    pub fn as_str(self) -> (r: &'static str)
        ensures
            r@ == match self {
                ResourceType::Gary => "gary"@,
                ResourceType::Goober => "goober"@,
            },
    {
        match self {
            ResourceType::Gary => "gary",
            ResourceType::Goober => "goober",
        }
    }

    pub fn default_image(self) -> (r: &'static str)
        ensures
            r@ == spec_default_image(self),
    {
        match self {
            ResourceType::Gary => "Gary76.jpg",
            ResourceType::Goober => "goober8.jpg",
        }
    }
}

/// ASCII lower-casing of one character; everything outside `A`..`Z` is left
/// unchanged.
pub open spec fn lower_char(c: char) -> char {
    match c {
        'A' => 'a',
        'B' => 'b',
        'C' => 'c',
        'D' => 'd',
        'E' => 'e',
        'F' => 'f',
        'G' => 'g',
        'H' => 'h',
        'I' => 'i',
        'J' => 'j',
        'K' => 'k',
        'L' => 'l',
        'M' => 'm',
        'N' => 'n',
        'O' => 'o',
        'P' => 'p',
        'Q' => 'q',
        'R' => 'r',
        'S' => 's',
        'T' => 't',
        'U' => 'u',
        'V' => 'v',
        'W' => 'w',
        'X' => 'x',
        'Y' => 'y',
        'Z' => 'z',
        _ => c,
    }
}

/// ASCII lower-casing of a whole sequence.
pub open spec fn lower_seq(s: Seq<char>) -> Seq<char> {
    Seq::new(s.len(), |i: int| lower_char(s[i]))
}

fn to_lower_char(c: char) -> (r: char)
    ensures
        r == lower_char(c),
{
    match c {
        'A' => 'a',
        'B' => 'b',
        'C' => 'c',
        'D' => 'd',
        'E' => 'e',
        'F' => 'f',
        'G' => 'g',
        'H' => 'h',
        'I' => 'i',
        'J' => 'j',
        'K' => 'k',
        'L' => 'l',
        'M' => 'm',
        'N' => 'n',
        'O' => 'o',
        'P' => 'p',
        'Q' => 'q',
        'R' => 'r',
        'S' => 's',
        'T' => 't',
        'U' => 'u',
        'V' => 'v',
        'W' => 'w',
        'X' => 'x',
        'Y' => 'y',
        'Z' => 'z',
        _ => c,
    }
}

/// True when `s`, lower-cased, equals `t`.
fn eq_lowered(s: &str, t: &str) -> (r: bool)
    ensures
        r == (lower_seq(s@) == t@),
{
    let n = s.unicode_len();
    if n != t.unicode_len() {
        proof {
            assert(lower_seq(s@).len() == s@.len());
        }
        return false;
    }
    let mut i: usize = 0;
    while i < n
        invariant
            i <= n,
            n == s@.len(),
            n == t@.len(),
            forall|j: int| 0 <= j < i ==> lower_char(s@[j]) == t@[j],
        decreases n - i,
    {
        if to_lower_char(s.get_char(i)) != t.get_char(i) {
            proof {
                assert(lower_seq(s@)[i as int] != t@[i as int]);
            }
            return false;
        }
        i = i + 1;
    }
    proof {
        assert(lower_seq(s@) =~= t@);
    }
    true
}

/// MIME content types the server can emit.
#[derive(Debug, Clone, Copy, PartialEq, Eq)]
pub enum ContentType {
    ImageJpeg,
    ImagePng,
    ImageGif,
    ImageWebp,
    ApplicationJson,
    TextPlain,
    ApplicationOctetStream,
}

/// The content type an extension maps to, matched case-insensitively;
/// unknown extensions map to the octet-stream fallback.
pub open spec fn spec_content_type_of_extension(e: Seq<char>) -> ContentType {
    let l = lower_seq(e);
    if l == "jpg"@ || l == "jpeg"@ {
        ContentType::ImageJpeg
    } else if l == "png"@ {
        ContentType::ImagePng
    } else if l == "gif"@ {
        ContentType::ImageGif
    } else if l == "webp"@ {
        ContentType::ImageWebp
    } else {
        ContentType::ApplicationOctetStream
    }
}

/// The content type of a file name: derived from its extension, or the
/// octet-stream fallback when it has none.
pub open spec fn spec_content_type_of_file(name: Seq<char>) -> ContentType {
    if exists|i: int| #[trigger] is_last_dot(name, i) && 0 < i < name.len() - 1 {
        let i = choose|i: int| #[trigger] is_last_dot(name, i) && 0 < i < name.len() - 1;
        spec_content_type_of_extension(name.skip(i + 1))
    } else {
        ContentType::ApplicationOctetStream
    }
}

proof fn lemma_last_dot_unique(s: Seq<char>, i: int, j: int)
    requires
        is_last_dot(s, i),
        is_last_dot(s, j),
    ensures
        i == j,
{
}

impl ContentType {
    pub fn from_extension(ext: &str) -> (r: ContentType)
        ensures
            r == spec_content_type_of_extension(ext@),
    {
        if eq_lowered(ext, "jpg") || eq_lowered(ext, "jpeg") {
            ContentType::ImageJpeg
        } else if eq_lowered(ext, "png") {
            ContentType::ImagePng
        } else if eq_lowered(ext, "gif") {
            ContentType::ImageGif
        } else if eq_lowered(ext, "webp") {
            ContentType::ImageWebp
        } else {
            ContentType::ApplicationOctetStream
        }
    }

    pub fn from_filename(filename: &FileName) -> (r: ContentType)
        ensures
            r == spec_content_type_of_file(filename@),
    {
        match filename.extension() {
            Some(e) => {
                proof {
                    let i = choose|i: int|
                        #[trigger] is_last_dot(filename@, i) && 0 < i < filename@.len() - 1
                            && e@ == filename@.skip(i + 1);
                    let j = choose|j: int|
                        #[trigger] is_last_dot(filename@, j) && 0 < j < filename@.len() - 1;
                    lemma_last_dot_unique(filename@, i, j);
                }
                ContentType::from_extension(e)
            },
            None => ContentType::ApplicationOctetStream,
        }
    }

    /// The MIME type string sent in the content-type header.
    pub fn as_str(self) -> (r: &'static str)
        ensures
            r@ == match self {
                ContentType::ImageJpeg => "image/jpeg"@,
                ContentType::ImagePng => "image/png"@,
                ContentType::ImageGif => "image/gif"@,
                ContentType::ImageWebp => "image/webp"@,
                ContentType::ApplicationJson => "application/json"@,
                ContentType::TextPlain => "text/plain"@,
                ContentType::ApplicationOctetStream => "application/octet-stream"@,
            },
    {
        match self {
            ContentType::ImageJpeg => "image/jpeg",
            ContentType::ImagePng => "image/png",
            ContentType::ImageGif => "image/gif",
            ContentType::ImageWebp => "image/webp",
            ContentType::ApplicationJson => "application/json",
            ContentType::TextPlain => "text/plain",
            ContentType::ApplicationOctetStream => "application/octet-stream",
        }
    }
}

/// The kinds of content a cache lookup can produce.
#[derive(Debug)]
pub enum Content {
    Quote(Vec<u8>),
    Joke(Vec<u8>),
    ImageUrl { resource: ResourceType, filename: FileName },
    Image(Vec<u8>),
}

/// Literal fragments spliced around cached content to form JSON bodies.
pub struct JsonConstants;

impl JsonConstants {
    pub const URL_PREFIX: &'static str = "{\"url\":\"";
    pub const URL_SEP: &'static str = "/";
    pub const URL_END: &'static str = "\"}";

    pub const QUOTE_PREFIX: &'static str = "{\"quote\":\"";
    pub const QUOTE_END: &'static str = "\"}";

    pub const JOKE_PREFIX: &'static str = "{\"joke\":\"";
    pub const JOKE_END: &'static str = "\"}";

    pub const ERROR_PREFIX: &'static str = "{\"error\":\"";
    pub const ERROR_END: &'static str = "\"}";
}

/// Literal fragments of the HTTP layer around the core.
pub struct HttpConstants;

impl HttpConstants {
    pub const NOT_FOUND: &'static str = "Not Found";
    pub const CACHE_CONTROL_NO_STORE: &'static str = "no-store";
    pub const HEADER_CONTENT_TYPE: &'static str = "content-type";
    pub const HEADER_CONTENT_LENGTH: &'static str = "content-length";
    pub const HEADER_CACHE_CONTROL: &'static str = "cache-control";
}

} // verus!
