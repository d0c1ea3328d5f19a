//! The router: a pure, total function from a URL path to a closed set of
//! route variants, with checked file-name extraction for the
//! path-parameterized routes.

use vstd::prelude::*;
use vstd::string::StrSliceExecFns;
use vstd::string::StringSliceAdditionalSpecFns;

use crate::types::{is_valid_file_name, FileName, ResourceType};

verus! {

/// True when `p` begins with `prefix`.
pub open spec fn starts_with(p: Seq<char>, prefix: Seq<char>) -> bool {
    p.len() >= prefix.len() && p.subrange(0, prefix.len() as int) == prefix
}

/// Character-by-character equality of two string slices.
fn str_eq(a: &str, b: &str) -> (r: bool)
    ensures
        r == (a@ == b@),
{
    let n = a.unicode_len();
    if n != b.unicode_len() {
        return false;
    }
    let mut i: usize = 0;
    while i < n
        invariant
            i <= n,
            n == a@.len(),
            n == b@.len(),
            forall|j: int| 0 <= j < i ==> a@[j] == b@[j],
        decreases n - i,
    {
        if a.get_char(i) != b.get_char(i) {
            return false;
        }
        i = i + 1;
    }
    proof {
        assert(a@ =~= b@);
    }
    true
}

/// Prefix test matching [`starts_with`].
fn str_starts_with(p: &str, prefix: &str) -> (r: bool)
    ensures
        r == starts_with(p@, prefix@),
{
    let m = prefix.unicode_len();
    if p.unicode_len() < m {
        return false;
    }
    let mut i: usize = 0;
    while i < m
        invariant
            i <= m,
            m == prefix@.len(),
            p@.len() >= m,
            forall|j: int| 0 <= j < i ==> p@[j] == prefix@[j],
        decreases m - i,
    {
        if p.get_char(i) != prefix.get_char(i) {
            proof {
                assert(p@.subrange(0, m as int)[i as int] != prefix@[i as int]);
            }
            return false;
        }
        i = i + 1;
    }
    proof {
        assert(p@.subrange(0, m as int) =~= prefix@);
    }
    true
}

/// Every route the server recognizes. Matching is an ordered decision list:
/// exact literals first, then prefix matches, then the catch-all.
#[derive(Debug, Clone, PartialEq, Eq)]
pub enum Route {
    /// `/` - the embedded documentation page.
    Docs,
    /// `/gary/count` - file count for the first family.
    GaryCount,
    /// `/goober/count` - file count for the second family.
    GooberCount,
    /// `/gary` - JSON with a random image URL.
    GaryUrl,
    /// `/goober` - JSON with a random image URL.
    GooberUrl,
    /// `/quote` - a random quote.
    Quote,
    /// `/joke` - a random joke.
    Joke,
    /// `/gary/image/...` - a random image, remainder ignored.
    GaryImage,
    /// `/goober/image/...` - a random image, remainder ignored.
    GooberImage,
    /// `/Gary/{filename}` - one specific image.
    GaryFile(FileName),
    /// `/Goober/{filename}` - one specific image.
    GooberFile(FileName),
    /// Anything else.
    NotFound,
}

/// What [`Route::from_path`] returns for a path, case by case, in match
/// order.
pub open spec fn spec_route_of(p: Seq<char>, r: Route) -> bool {
    if p == "/"@ {
        r == Route::Docs
    } else if p == "/gary/count"@ {
        r == Route::GaryCount
    } else if p == "/goober/count"@ {
        r == Route::GooberCount
    } else if p == "/gary"@ {
        r == Route::GaryUrl
    } else if p == "/goober"@ {
        r == Route::GooberUrl
    } else if p == "/quote"@ {
        r == Route::Quote
    } else if p == "/joke"@ {
        r == Route::Joke
    } else if starts_with(p, "/gary/image/"@) {
        r == Route::GaryImage
    } else if starts_with(p, "/goober/image/"@) {
        r == Route::GooberImage
    } else if starts_with(p, "/Gary/"@) {
        if is_valid_file_name(p.skip(6)) {
            r matches Route::GaryFile(f) && f@ == p.skip(6)
        } else {
            r == Route::NotFound
        }
    } else if starts_with(p, "/Goober/"@) {
        if is_valid_file_name(p.skip(8)) {
            r matches Route::GooberFile(f) && f@ == p.skip(8)
        } else {
            r == Route::NotFound
        }
    } else {
        r == Route::NotFound
    }
}

impl Route {
    /// Parses a path into a route. Total: every input string, however long,
    /// yields some variant; an invalid trailing file name yields `NotFound`.
    pub fn from_path(path: &str) -> (r: Route)
        ensures
            spec_route_of(path@, r),
    {
        if str_eq(path, "/") {
            Route::Docs
        } else if str_eq(path, "/gary/count") {
            Route::GaryCount
        } else if str_eq(path, "/goober/count") {
            Route::GooberCount
        } else if str_eq(path, "/gary") {
            Route::GaryUrl
        } else if str_eq(path, "/goober") {
            Route::GooberUrl
        } else if str_eq(path, "/quote") {
            Route::Quote
        } else if str_eq(path, "/joke") {
            Route::Joke
        } else if str_starts_with(path, "/gary/image/") {
            Route::GaryImage
        } else if str_starts_with(path, "/goober/image/") {
            Route::GooberImage
        } else if str_starts_with(path, "/Gary/") {
            proof {
                reveal_strlit("/Gary/");
            }
            let rest = path.substring_char(6, path.unicode_len());
            proof {
                assert(rest@ =~= path@.skip(6));
            }
            match FileName::new(rest) {
                Ok(f) => Route::GaryFile(f),
                Err(_) => Route::NotFound,
            }
        } else if str_starts_with(path, "/Goober/") {
            proof {
                reveal_strlit("/Goober/");
            }
            let rest = path.substring_char(8, path.unicode_len());
            proof {
                assert(rest@ =~= path@.skip(8));
            }
            match FileName::new(rest) {
                Ok(f) => Route::GooberFile(f),
                Err(_) => Route::NotFound,
            }
        } else {
            Route::NotFound
        }
    }

    /// The resource family a route touches, for the file-backed routes.
    pub fn resource_type(&self) -> (r: Option<ResourceType>)
        ensures
            r == match self {
                Route::GaryUrl | Route::GaryImage | Route::GaryFile(_) => Some(ResourceType::Gary),
                Route::GooberUrl | Route::GooberImage | Route::GooberFile(_) => Some(
                    ResourceType::Goober,
                ),
                _ => None::<ResourceType>,
            },
    {
        match self {
            Route::GaryUrl | Route::GaryImage | Route::GaryFile(_) => Some(ResourceType::Gary),
            Route::GooberUrl | Route::GooberImage | Route::GooberFile(_) => Some(
                ResourceType::Goober,
            ),
            _ => None,
        }
    }

    /// True for the routes that serve image bytes.
    pub fn is_image_route(&self) -> (r: bool)
        ensures
            r == (self matches Route::GaryImage || self matches Route::GooberImage
                || self matches Route::GaryFile(_) || self matches Route::GooberFile(_)),
    {
        match self {
            Route::GaryImage | Route::GooberImage | Route::GaryFile(_) | Route::GooberFile(_) => {
                true
            },
            _ => false,
        }
    }

    /// True for the routes that return a URL payload.
    pub fn is_url_route(&self) -> (r: bool)
        ensures
            r == (self matches Route::GaryUrl || self matches Route::GooberUrl),
    {
        match self {
            Route::GaryUrl | Route::GooberUrl => true,
            _ => false,
        }
    }

    /// True for the routes that return text content.
    pub fn is_text_route(&self) -> (r: bool)
        ensures
            r == (self matches Route::Quote || self matches Route::Joke),
    {
        match self {
            Route::Quote | Route::Joke => true,
            _ => false,
        }
    }

    /// The file name carried by the specific-file routes.
    pub fn filename(&self) -> (r: Option<&FileName>)
        ensures
            match self {
                Route::GaryFile(f) => r matches Some(g) && g@ == f@,
                Route::GooberFile(f) => r matches Some(g) && g@ == f@,
                _ => r is None,
            },
    {
        match self {
            Route::GaryFile(f) | Route::GooberFile(f) => Some(f),
            _ => None,
        }
    }
}

/// A thin front over [`Route::from_path`], kept for callers that hold a
/// matcher value.
pub struct RouteMatcher;

impl RouteMatcher {
    pub fn new() -> (r: RouteMatcher) {
        RouteMatcher
    }

    /// Parses a path; same contract as [`Route::from_path`].
    pub fn match_route(&self, path: &str) -> (r: Route)
        ensures
            spec_route_of(path@, r),
    {
        Route::from_path(path)
    }

    /// A cheap plausibility test: non-empty, absolute, and under the byte
    /// length bound this matcher considers reasonable.
    pub fn is_valid_path(&self, path: &str) -> (r: bool)
        ensures
            r == (path@.len() > 0 && path@[0] == '/' && vstd::utf8::encode_utf8(path@).len()
                < 1000),
    {
        if path.is_empty() {
            return false;
        }
        let bytes = path.as_bytes();
        proof {
            assert(bytes@ == vstd::utf8::encode_utf8(path@));
        }
        path.get_char(0) == '/' && bytes.len() < 1000
    }
}

/// The literal path fragments the router matches on.
pub struct RoutePatterns;

impl RoutePatterns {
    pub const GARY: &'static str = "/gary";
    pub const GOOBER: &'static str = "/goober";
    pub const QUOTE: &'static str = "/quote";
    pub const JOKE: &'static str = "/joke";
    pub const GARY_IMAGE_PREFIX: &'static str = "/gary/image/";
    pub const GOOBER_IMAGE_PREFIX: &'static str = "/goober/image/";
    pub const GARY_FILE_PREFIX: &'static str = "/Gary/";
    pub const GOOBER_FILE_PREFIX: &'static str = "/Goober/";
}

} // verus!
