//! The response handed back to the client, as plain values.

use vstd::prelude::*;
use vstd::utf8::encode_utf8;
use crate::error::RelayError;
use crate::text::pairs_view;

verus! {

/// An HTTP response: status, headers in the order in which they are set,
/// and the body.
#[derive(Debug, PartialEq, Eq)]
pub struct Response {
    pub status: u16,
    pub headers: Vec<(String, String)>,
    pub body: Vec<u8>,
}

/// A response as verification sees it.
pub struct ResponseView {
    pub status: u16,
    pub headers: Seq<(Seq<char>, Seq<char>)>,
    pub body: Seq<u8>,
}

impl View for Response {
    type V = ResponseView;

    open spec fn view(&self) -> ResponseView {
        ResponseView {
            status: self.status,
            headers: pairs_view(self.headers@),
            body: self.body@,
        }
    }
}

/// The three headers that open a response to every origin.
pub open spec fn cors_headers() -> Seq<(Seq<char>, Seq<char>)> {
    seq![
        ("Access-Control-Allow-Origin"@, "*"@),
        ("Access-Control-Allow-Headers"@, "*"@),
        ("Access-Control-Allow-Method"@, "*"@),
    ]
}

impl ResponseView {
    /// The response carries the header `name` with the value `value`.
    pub open spec fn has_header(self, name: Seq<char>, value: Seq<char>) -> bool {
        exists|i: int| 0 <= i < self.headers.len() && self.headers[i] == (name, value)
    }

    /// The response carries each of the three cross-origin headers with the value `*`.
    pub open spec fn has_cors(self) -> bool {
        &&& self.has_header("Access-Control-Allow-Origin"@, "*"@)
        &&& self.has_header("Access-Control-Allow-Headers"@, "*"@)
        &&& self.has_header("Access-Control-Allow-Method"@, "*"@)
    }
}

/// The response that gives the client the address of the image.
pub open spec fn text_response_view(url: Seq<char>) -> ResponseView {
    ResponseView { status: 200, headers: cors_headers(), body: encode_utf8(url) }
}

/// The response that gives the client the image itself.
pub open spec fn image_response_view(image: Seq<u8>, content_type: Seq<char>) -> ResponseView {
    ResponseView {
        status: 200,
        headers: cors_headers().push(("Content-Type"@, content_type)),
        body: image,
    }
}

/// The response that reports a failure.
pub open spec fn error_response_view(error: RelayError) -> ResponseView {
    ResponseView {
        status: error.spec_status(),
        headers: cors_headers(),
        body: encode_utf8(error.spec_message()),
    }
}

fn open_headers() -> (headers: Vec<(String, String)>)
    ensures
        pairs_view(headers@) == cors_headers(),
{
    let mut headers: Vec<(String, String)> = Vec::new();
    headers.push(("Access-Control-Allow-Origin".to_owned(), "*".to_owned()));
    headers.push(("Access-Control-Allow-Headers".to_owned(), "*".to_owned()));
    headers.push(("Access-Control-Allow-Method".to_owned(), "*".to_owned()));
    assert(pairs_view(headers@) =~= cors_headers());
    headers
}

impl Response {
    /// Status 200 with the address of the image as the body.
    pub fn text(url: &str) -> (r: Response)
        ensures
            r@ == text_response_view(url@),
            r@.has_cors(),
    {
        let r = Response { status: 200, headers: open_headers(), body: url.as_bytes_vec() };
        proof {
            lemma_responses_have_cors();
            assert(text_response_view(url@).has_cors());
        }
        r
    }

    /// Status 200 with the image as the body, declared as `content_type`.
    pub fn image(image: Vec<u8>, content_type: &str) -> (r: Response)
        ensures
            r@ == image_response_view(image@, content_type@),
            r@.has_cors(),
    {
        let mut headers = open_headers();
        headers.push(("Content-Type".to_owned(), content_type.to_owned()));
        assert(pairs_view(headers@) =~= cors_headers().push(("Content-Type"@, content_type@)));
        let r = Response { status: 200, headers, body: image };
        proof {
            lemma_responses_have_cors();
            assert(image_response_view(image@, content_type@).has_cors());
        }
        r
    }

    /// The status and the short text of `error`.
    pub fn failure(error: RelayError) -> (r: Response)
        ensures
            r@ == error_response_view(error),
            r@.has_cors(),
    {
        let r = Response {
            status: error.status(),
            headers: open_headers(),
            body: error.message().as_bytes_vec(),
        };
        proof {
            lemma_responses_have_cors();
            assert(error_response_view(error).has_cors());
        }
        r
    }
}

proof fn lemma_cors_prefix(r: ResponseView)
    requires
        r.headers.len() >= 3,
        r.headers.take(3) == cors_headers(),
    ensures
        r.has_cors(),
{
    let c = cors_headers();
    assert(r.headers[0] == r.headers.take(3)[0] && c[0] == ("Access-Control-Allow-Origin"@, "*"@));
    assert(r.headers[1] == r.headers.take(3)[1] && c[1] == ("Access-Control-Allow-Headers"@, "*"@));
    assert(r.headers[2] == r.headers.take(3)[2] && c[2] == ("Access-Control-Allow-Method"@, "*"@));
}

/// Every response that this module describes carries the three
/// cross-origin headers with the value `*`.
pub proof fn lemma_responses_have_cors()
    ensures
        forall|url: Seq<char>| #[trigger] text_response_view(url).has_cors(),
        forall|image: Seq<u8>, content_type: Seq<char>| #[trigger]
            image_response_view(image, content_type).has_cors(),
        forall|error: RelayError| #[trigger] error_response_view(error).has_cors(),
{
    assert forall|url: Seq<char>| #[trigger] text_response_view(url).has_cors() by {
        assert(cors_headers().take(3) =~= cors_headers());
        lemma_cors_prefix(text_response_view(url));
    }
    assert forall|image: Seq<u8>, content_type: Seq<char>| #[trigger]
        image_response_view(image, content_type).has_cors() by {
        let r = image_response_view(image, content_type);
        assert(r.headers.take(3) =~= cors_headers());
        lemma_cors_prefix(r);
    }
    assert forall|error: RelayError| #[trigger] error_response_view(error).has_cors() by {
        assert(cors_headers().take(3) =~= cors_headers());
        lemma_cors_prefix(error_response_view(error));
    }
}

} // verus!
