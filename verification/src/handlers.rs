//! The dispatcher: given a route and read access to the cache, decides which
//! cache operation to run and what the response payload is. Disk reads are
//! asynchronous work the surrounding process performs; the dispatcher tells
//! it what to read through [`ResolveStep::NeedsDisk`] and finishes the job
//! in [`RequestDispatcher::resolve_after_read`].

use vstd::prelude::*;

use crate::cache::{CacheView, FileCache, IMAGE_CACHE_LIMIT};
use crate::routing::Route;
use crate::types::{spec_default_image, CacheKey, FileName, ResourceType};

verus! {

/// The logical payload of a successful response; the wire format around it
/// is the response collaborator's business.
pub enum ResponsePayload {
    /// The static documentation page.
    Doc,
    /// The current file count of one family.
    Count { resource: ResourceType, count: usize },
    /// A file reference to be rendered as `{base-url}/{filename}`.
    Url { resource: ResourceType, filename: FileName },
    /// A pre-escaped quote blob.
    QuoteText(Vec<u8>),
    /// A pre-escaped joke blob.
    JokeText(Vec<u8>),
    /// Image bytes, with the name that determines the content type.
    Image { filename: FileName, bytes: Vec<u8> },
}

/// What a request ultimately resolves to.
pub enum Outcome {
    Content(ResponsePayload),
    /// The wanted list is empty: an expected state, not an error page.
    NotAvailable,
    NotFound,
    /// The disk read for a resolved file failed; carries the description.
    FileError(String),
}

/// The dispatcher's answer before any disk access: either a finished
/// outcome, or an instruction to read one file and come back.
pub enum ResolveStep {
    Done(Outcome),
    NeedsDisk { resource: ResourceType, filename: FileName },
}

/// The name picked for a family: a member of its current list, or the fixed
/// default when the list is empty.
pub open spec fn picked_name(c: CacheView, resource: ResourceType, name: Seq<char>) -> bool {
    if c.files(resource).len() == 0 {
        name == spec_default_image(resource)
    } else {
        c.files(resource).contains(name)
    }
}

/// The image-serving path for a settled file name: cached bytes when the
/// key is present, otherwise a disk-read instruction.
pub open spec fn serves_image(
    c: CacheView,
    resource: ResourceType,
    name: Seq<char>,
    r: ResolveStep,
) -> bool {
    if c.images.contains_key(name) {
        r matches ResolveStep::Done(Outcome::Content(ResponsePayload::Image { filename, bytes }))
            && filename@ == name && bytes@ == c.images[name]
    } else {
        r matches ResolveStep::NeedsDisk { resource: res, filename } && res == resource
            && filename@ == name
    }
}

/// The random-image path: some properly picked name, served as above.
pub open spec fn serves_random_image(c: CacheView, resource: ResourceType, r: ResolveStep) -> bool {
    match r {
        ResolveStep::Done(Outcome::Content(ResponsePayload::Image { filename, bytes })) => {
            picked_name(c, resource, filename@) && serves_image(c, resource, filename@, r)
        },
        ResolveStep::NeedsDisk { resource: res, filename } => {
            res == resource && picked_name(c, resource, filename@) && serves_image(
                c,
                resource,
                filename@,
                r,
            )
        },
        _ => false,
    }
}

/// What `resolve` answers for each route against a cache state.
pub open spec fn spec_resolved(c: CacheView, route: Route, r: ResolveStep) -> bool {
    match route {
        Route::Docs => r == ResolveStep::Done(Outcome::Content(ResponsePayload::Doc)),
        Route::GaryCount => r matches ResolveStep::Done(
            Outcome::Content(ResponsePayload::Count { resource, count }),
        ) && resource == ResourceType::Gary && count == c.files(ResourceType::Gary).len(),
        Route::GooberCount => r matches ResolveStep::Done(
            Outcome::Content(ResponsePayload::Count { resource, count }),
        ) && resource == ResourceType::Goober && count == c.files(ResourceType::Goober).len(),
        Route::GaryUrl => r matches ResolveStep::Done(
            Outcome::Content(ResponsePayload::Url { resource, filename }),
        ) && resource == ResourceType::Gary && picked_name(c, ResourceType::Gary, filename@),
        Route::GooberUrl => r matches ResolveStep::Done(
            Outcome::Content(ResponsePayload::Url { resource, filename }),
        ) && resource == ResourceType::Goober && picked_name(c, ResourceType::Goober, filename@),
        Route::Quote => if c.quotes.len() == 0 {
            r == ResolveStep::Done(Outcome::NotAvailable)
        } else {
            r matches ResolveStep::Done(Outcome::Content(ResponsePayload::QuoteText(q)))
                && c.quotes.contains(q@)
        },
        Route::Joke => if c.jokes.len() == 0 {
            r == ResolveStep::Done(Outcome::NotAvailable)
        } else {
            r matches ResolveStep::Done(Outcome::Content(ResponsePayload::JokeText(j)))
                && c.jokes.contains(j@)
        },
        Route::GaryImage => serves_random_image(c, ResourceType::Gary, r),
        Route::GooberImage => serves_random_image(c, ResourceType::Goober, r),
        Route::GaryFile(f) => serves_image(c, ResourceType::Gary, f@, r),
        Route::GooberFile(f) => serves_image(c, ResourceType::Goober, f@, r),
        Route::NotFound => r == ResolveStep::Done(Outcome::NotFound),
    }
}

/// The central dispatcher; one instance handles every route.
pub struct RequestDispatcher;

impl RequestDispatcher {
    pub fn new() -> (r: RequestDispatcher) {
        RequestDispatcher
    }

    /// Decides a route against the current cache state: a finished outcome
    /// for everything the cache can answer, a disk-read instruction for an
    /// image miss, and `NotFound`/`NotAvailable` exactly as the route and
    /// state demand.
    pub fn resolve(&self, route: Route, cache: &FileCache) -> (r: ResolveStep)
        ensures
            spec_resolved(cache@, route, r),
    {
        match route {
            Route::Docs => ResolveStep::Done(Outcome::Content(ResponsePayload::Doc)),
            Route::GaryCount => {
                let count = cache.file_count(ResourceType::Gary);
                ResolveStep::Done(
                    Outcome::Content(
                        ResponsePayload::Count { resource: ResourceType::Gary, count },
                    ),
                )
            },
            Route::GooberCount => {
                let count = cache.file_count(ResourceType::Goober);
                ResolveStep::Done(
                    Outcome::Content(
                        ResponsePayload::Count { resource: ResourceType::Goober, count },
                    ),
                )
            },
            Route::GaryUrl => self.resolve_url(ResourceType::Gary, cache),
            Route::GooberUrl => self.resolve_url(ResourceType::Goober, cache),
            Route::Quote => match cache.get_random_quote() {
                Some(q) => ResolveStep::Done(Outcome::Content(ResponsePayload::QuoteText(q))),
                None => ResolveStep::Done(Outcome::NotAvailable),
            },
            Route::Joke => match cache.get_random_joke() {
                Some(j) => ResolveStep::Done(Outcome::Content(ResponsePayload::JokeText(j))),
                None => ResolveStep::Done(Outcome::NotAvailable),
            },
            Route::GaryImage => self.resolve_random_image(ResourceType::Gary, cache),
            Route::GooberImage => self.resolve_random_image(ResourceType::Goober, cache),
            Route::GaryFile(f) => self.serve_image_step(ResourceType::Gary, f, cache),
            Route::GooberFile(f) => self.serve_image_step(ResourceType::Goober, f, cache),
            Route::NotFound => ResolveStep::Done(Outcome::NotFound),
        }
    }

    /// The URL path: a random pick with the per-family default standing in
    /// for an empty list; never fails outright.
    fn resolve_url(&self, resource: ResourceType, cache: &FileCache) -> (r: ResolveStep)
        ensures
            r matches ResolveStep::Done(Outcome::Content(ResponsePayload::Url { resource: res, filename }))
                && res == resource && picked_name(cache@, resource, filename@),
    {
        let filename = self.pick_name(resource, cache);
        ResolveStep::Done(Outcome::Content(ResponsePayload::Url { resource, filename }))
    }

    /// The random-image path: pick a name as for URLs, then serve it.
    fn resolve_random_image(&self, resource: ResourceType, cache: &FileCache) -> (r: ResolveStep)
        ensures
            serves_random_image(cache@, resource, r),
    {
        let filename = self.pick_name(resource, cache);
        self.serve_image_step(resource, filename, cache)
    }

    /// A random member of the family's list, or its default name when the
    /// list is empty.
    fn pick_name(&self, resource: ResourceType, cache: &FileCache) -> (r: FileName)
        ensures
            picked_name(cache@, resource, r@),
    {
        match cache.get_random_file(resource) {
            Some(f) => f,
            None => FileName::new_unchecked(resource.default_image()),
        }
    }

    /// The shared image-serving path before disk access: cached bytes on a
    /// hit, a read instruction on a miss.
    fn serve_image_step(&self, resource: ResourceType, filename: FileName, cache: &FileCache) -> (r:
        ResolveStep)
        ensures
            serves_image(cache@, resource, filename@, r),
    {
        let key = CacheKey::from_file_name(&filename);
        match cache.get_image(&key) {
            Some(bytes) => ResolveStep::Done(
                Outcome::Content(ResponsePayload::Image { filename, bytes }),
            ),
            None => ResolveStep::NeedsDisk { resource, filename },
        }
    }

    /// Finishes an image request after the process read the file: on
    /// success the bytes are returned and, when they fit under the size
    /// gate, stored in the cache; on failure the error is surfaced as a
    /// distinct outcome and the cache is untouched.
    pub fn resolve_after_read(
        &self,
        filename: FileName,
        read_result: Result<Vec<u8>, String>,
        cache: &mut FileCache,
    ) -> (r: Outcome)
        ensures
            match read_result {
                Ok(bytes) => {
                    &&& r matches Outcome::Content(ResponsePayload::Image { filename: f, bytes: b })
                        && f@ == filename@ && b@ == bytes@
                    &&& final(cache)@ == if bytes@.len() < IMAGE_CACHE_LIMIT {
                        old(cache)@.with_image(filename@, bytes@)
                    } else {
                        old(cache)@
                    }
                },
                Err(e) => {
                    &&& r matches Outcome::FileError(msg) && msg@ == e@
                    &&& final(cache)@ == old(cache)@
                },
            },
    {
        match read_result {
            Ok(bytes) => {
                let key = CacheKey::from_file_name(&filename);
                cache.cache_image_if_small(key, &bytes);
                Outcome::Content(ResponsePayload::Image { filename, bytes })
            },
            Err(e) => Outcome::FileError(e),
        }
    }
}

impl crate::cache::SharedCache {
    /// Runs the verified [`RequestDispatcher::resolve`] under a shared
    /// lock; the step is the dispatcher's answer for the cache state that
    /// read section saw.
    pub fn resolve(&self, dispatcher: &RequestDispatcher, route: Route) -> (r: ResolveStep)
        ensures
            exists|c: CacheView| #[trigger] spec_resolved(c, route, r),
    {
        let handle = self.inner.acquire_read();
        let cache = handle.borrow();
        let r = dispatcher.resolve(route, cache);
        proof {
            assert(spec_resolved(cache@, route, r));
        }
        handle.release_read();
        r
    }

    /// Runs the verified [`RequestDispatcher::resolve_after_read`] under an
    /// exclusive lock: the outcome and the size-gated cache population are
    /// that method's contract, applied to the state the write section held.
    pub fn resolve_after_read(
        &self,
        dispatcher: &RequestDispatcher,
        filename: FileName,
        read_result: Result<Vec<u8>, String>,
    ) -> (r: Outcome)
        ensures
            match read_result {
                Ok(bytes) => r matches Outcome::Content(ResponsePayload::Image {
                    filename: f,
                    bytes: b,
                }) && f@ == filename@ && b@ == bytes@,
                Err(e) => r matches Outcome::FileError(msg) && msg@ == e@,
            },
    {
        let (mut cache, handle) = self.inner.acquire_write();
        let r = dispatcher.resolve_after_read(filename, read_result, &mut cache);
        handle.release_write(cache);
        r
    }
}

/// The explicit no-content message for a text route whose list is empty.
pub fn no_content_message(route: &Route) -> (r: &'static str)
    ensures
        r@ == match route {
            Route::Joke => "No jokes available"@,
            _ => "No quotes available"@,
        },
{
    match route {
        Route::Joke => "No jokes available",
        _ => "No quotes available",
    }
}

} // verus!
