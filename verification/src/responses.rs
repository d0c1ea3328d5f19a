//! Response payload assembly: the exact bytes of each JSON body the server
//! emits. The HTTP status line and headers around these bodies are the wire
//! collaborator's business; the core only assembles the logical payload.

use vstd::prelude::*;
use vstd::utf8::encode_utf8;

use crate::types::{
    spec_content_type_of_file, BaseUrl, ContentType, FileName, JsonConstants, ResourceType,
};

verus! {

/// A body of the shape `{prefix}{content}{suffix}`, with the literal parts
/// taken as their UTF-8 bytes.
pub open spec fn spec_wrapped_body(prefix: Seq<char>, content: Seq<u8>, suffix: Seq<char>) -> Seq<
    u8,
> {
    encode_utf8(prefix) + content + encode_utf8(suffix)
}

/// The URL body: `{"url":"{base}/{filename}"}`.
pub open spec fn spec_url_body(base: Seq<u8>, filename: Seq<char>) -> Seq<u8> {
    encode_utf8("{\"url\":\""@) + base + encode_utf8("/"@) + encode_utf8(filename) + encode_utf8(
        "\"}"@,
    )
}

fn build_wrapped_body(prefix: &str, content: &[u8], suffix: &str) -> (r: Vec<u8>)
    ensures
        r@ == spec_wrapped_body(prefix@, content@, suffix@),
{
    let mut body: Vec<u8> = Vec::new();
    body.extend_from_slice(prefix.as_bytes());
    body.extend_from_slice(content);
    body.extend_from_slice(suffix.as_bytes());
    proof {
        assert(body@ =~= spec_wrapped_body(prefix@, content@, suffix@));
    }
    body
}

/// Marker trait for the compile-time response builder family.
pub trait ResponseType {

}

/// JSON response marker.
pub struct JsonResponseType;

impl ResponseType for JsonResponseType {

}

/// Image response marker.
pub struct ImageResponseType;

impl ResponseType for ImageResponseType {

}

/// Error response marker.
pub struct ErrorResponseType;

impl ResponseType for ErrorResponseType {

}

/// A payload builder tagged by the kind of response it assembles.
pub struct ResponseBuilder<T: ResponseType> {
    _phantom: core::marker::PhantomData<T>,
}

impl<T: ResponseType> ResponseBuilder<T> {
    pub fn new() -> (r: ResponseBuilder<T>) {
        ResponseBuilder { _phantom: core::marker::PhantomData }
    }
}

impl ResponseBuilder<JsonResponseType> {
    /// The URL body for one family: `{"url":"{base}/{filename}"}`.
    #[allow(unused_variables)]
    pub fn build_url_response(
        &self,
        resource: ResourceType,
        base_url: &BaseUrl,
        filename: &FileName,
    ) -> (r: Vec<u8>)
        ensures
            r@ == spec_url_body(base_url@, filename@),
    {
        let mut body: Vec<u8> = Vec::new();
        body.extend_from_slice(JsonConstants::URL_PREFIX.as_bytes());
        body.extend_from_slice(base_url.as_bytes());
        body.extend_from_slice(JsonConstants::URL_SEP.as_bytes());
        body.extend_from_slice(filename.as_bytes());
        body.extend_from_slice(JsonConstants::URL_END.as_bytes());
        proof {
            assert(body@ =~= spec_url_body(base_url@, filename@));
        }
        body
    }

    /// `{"quote":"{quote}"}`.
    pub fn build_quote_response(&self, quote: &Vec<u8>) -> (r: Vec<u8>)
        ensures
            r@ == spec_wrapped_body(JsonConstants::QUOTE_PREFIX@, quote@, JsonConstants::QUOTE_END@),
    {
        build_wrapped_body(JsonConstants::QUOTE_PREFIX, quote.as_slice(), JsonConstants::QUOTE_END)
    }

    /// `{"joke":"{joke}"}`.
    pub fn build_joke_response(&self, joke: &Vec<u8>) -> (r: Vec<u8>)
        ensures
            r@ == spec_wrapped_body(JsonConstants::JOKE_PREFIX@, joke@, JsonConstants::JOKE_END@),
    {
        build_wrapped_body(JsonConstants::JOKE_PREFIX, joke.as_slice(), JsonConstants::JOKE_END)
    }

    /// `{"error":"{message}"}`.
    pub fn build_error_response(&self, message: &[u8]) -> (r: Vec<u8>)
        ensures
            r@ == spec_wrapped_body(JsonConstants::ERROR_PREFIX@, message@, JsonConstants::ERROR_END@),
    {
        build_wrapped_body(JsonConstants::ERROR_PREFIX, message, JsonConstants::ERROR_END)
    }
}

impl ResponseBuilder<ImageResponseType> {
    /// The content type an image response advertises for `filename`.
    pub fn content_type_for(&self, filename: &FileName) -> (r: ContentType)
        ensures
            r == spec_content_type_of_file(filename@),
    {
        ContentType::from_filename(filename)
    }
}

impl ResponseBuilder<ErrorResponseType> {
    /// The plain-text body of the not-found response.
    pub fn build_not_found_body(&self) -> (r: Vec<u8>)
        ensures
            r@ == encode_utf8("Not Found"@),
    {
        let body = build_wrapped_body("Not Found", &[], "");
        proof {
            reveal_strlit("");
            assert(encode_utf8(""@) =~= Seq::<u8>::empty());
            assert(body@ =~= encode_utf8("Not Found"@));
        }
        body
    }
}

/// The JSON payload builder.
pub type JsonResponse = ResponseBuilder<JsonResponseType>;

/// The image payload builder.
pub type ImageResponse = ResponseBuilder<ImageResponseType>;

/// The error payload builder.
pub type ErrorResponse = ResponseBuilder<ErrorResponseType>;

/// Access to one builder of each kind.
pub struct ResponseBuilders;

impl ResponseBuilders {
    pub fn json() -> (r: JsonResponse) {
        JsonResponse::new()
    }

    pub fn image() -> (r: ImageResponse) {
        ImageResponse::new()
    }

    pub fn error() -> (r: ErrorResponse) {
        ErrorResponse::new()
    }
}

/// The default payload factory: one place that builds every body kind.
pub struct DefaultResponser;

impl DefaultResponser {
    /// The URL body for one family.
    pub fn url_response(resource: ResourceType, base_url: &BaseUrl, filename: &FileName) -> (r: Vec<
        u8,
    >)
        ensures
            r@ == spec_url_body(base_url@, filename@),
    {
        ResponseBuilders::json().build_url_response(resource, base_url, filename)
    }

    /// The quote body.
    pub fn quote_response(quote: &Vec<u8>) -> (r: Vec<u8>)
        ensures
            r@ == spec_wrapped_body(JsonConstants::QUOTE_PREFIX@, quote@, JsonConstants::QUOTE_END@),
    {
        ResponseBuilders::json().build_quote_response(quote)
    }

    /// The joke body.
    pub fn joke_response(joke: &Vec<u8>) -> (r: Vec<u8>)
        ensures
            r@ == spec_wrapped_body(JsonConstants::JOKE_PREFIX@, joke@, JsonConstants::JOKE_END@),
    {
        ResponseBuilders::json().build_joke_response(joke)
    }

    /// The content type an image response uses for `filename`; the bytes
    /// themselves pass through untouched.
    pub fn image_content_type(filename: &FileName) -> (r: ContentType)
        ensures
            r == spec_content_type_of_file(filename@),
    {
        ResponseBuilders::image().content_type_for(filename)
    }

    /// The not-found body.
    pub fn not_found_response() -> (r: Vec<u8>)
        ensures
            r@ == encode_utf8("Not Found"@),
    {
        ResponseBuilders::error().build_not_found_body()
    }

    /// The error body.
    pub fn error_response(message: &[u8]) -> (r: Vec<u8>)
        ensures
            r@ == spec_wrapped_body(JsonConstants::ERROR_PREFIX@, message@, JsonConstants::ERROR_END@),
    {
        ResponseBuilders::json().build_error_response(message)
    }
}

} // verus!
