//! What is asked of the upstream service, and what is read out of its answer.

use vstd::prelude::*;
use crate::config::{RelayConfig, RelayConfigView, UpstreamShape};
use crate::document::{
    descend, has_child, json_nodes, parse_json, parsed_json, path_view, subtree, text_at,
    text_at_path, Nodes, PathStep, Step,
};
use crate::error::RelayError;
use crate::query::{
    joined_fields, upstream_fields, upstream_params, QueryParamsView, RequestQueryParams,
};
use crate::text::{contains, contains_text};

verus! {

/// A text or a failure, as verification sees it.
pub open spec fn text_result_view(r: Result<String, RelayError>) -> Result<
    Seq<char>,
    RelayError,
> {
    match r {
        Ok(s) => Ok(s@),
        Err(e) => Err(e),
    }
}

/// Where the answer of the upstream service holds the address of the
/// image. The archive endpoint was asked for the wanted day, so its answer
/// is read at the first image; the model endpoint lists the days, and its
/// answer is read at `index`.
pub open spec fn image_path_steps(shape: UpstreamShape, index: nat) -> Seq<PathStep> {
    match shape {
        UpstreamShape::Archive => seq![
            PathStep::Key("images"@),
            PathStep::Index(0),
            PathStep::Key("url"@),
        ],
        UpstreamShape::Model => seq![
            PathStep::Key("MediaContents"@),
            PathStep::Index(index),
            PathStep::Key("ImageContent"@),
            PathStep::Key("Image"@),
            PathStep::Key("Url"@),
        ],
    }
}

/// The path to the address of the image in an answer of the given shape.
pub fn image_path(shape: UpstreamShape, index: usize) -> (r: Vec<Step>)
    ensures
        path_view(r@) == image_path_steps(shape, index as nat),
{
    let mut path: Vec<Step> = Vec::new();
    match shape {
        UpstreamShape::Archive => {
            path.push(Step::Key("images".to_owned()));
            path.push(Step::Index(0));
            path.push(Step::Key("url".to_owned()));
        },
        UpstreamShape::Model => {
            path.push(Step::Key("MediaContents".to_owned()));
            path.push(Step::Index(index));
            path.push(Step::Key("ImageContent".to_owned()));
            path.push(Step::Key("Image".to_owned()));
            path.push(Step::Key("Url".to_owned()));
        },
    }
    assert(path_view(path@) =~= image_path_steps(shape, index as nat));
    path
}

/// The address that a document of the given shape holds for the image: the
/// text at the image path, and a malformed answer where there is none.
pub open spec fn extracted_path(nodes: Nodes, shape: UpstreamShape, index: nat) -> Result<
    Seq<char>,
    RelayError,
> {
    match text_at_path(nodes, image_path_steps(shape, index)) {
        Some(t) => Ok(t),
        None => Err(RelayError::UpstreamMalformed),
    }
}

/// Reads the address of the image out of the answer of the upstream service.
pub fn extract_image_path(doc: &serde_json::Value, shape: UpstreamShape, index: usize) -> (r:
    Result<String, RelayError>)
    ensures
        text_result_view(r) == extracted_path(json_nodes(*doc), shape, index as nat),
{
    let path = image_path(shape, index);
    match text_at(doc, &path) {
        Some(t) => Ok(t),
        None => Err(RelayError::UpstreamMalformed),
    }
}

/// The address that the body of an answer holds for the image. A body that
/// is not a JSON document is a malformed answer.
pub open spec fn image_path_in_body(body: Seq<u8>, shape: UpstreamShape, index: nat) -> Result<
    Seq<char>,
    RelayError,
> {
    match parsed_json(body) {
        Some(nodes) => extracted_path(nodes, shape, index),
        None => Err(RelayError::UpstreamMalformed),
    }
}

/// Parses the body of an answer and reads the address of the image out of it.
pub fn image_path_from_body(body: &[u8], shape: UpstreamShape, index: usize) -> (r: Result<
    String,
    RelayError,
>)
    ensures
        text_result_view(r) == image_path_in_body(body@, shape, index as nat),
{
    match parse_json(body) {
        Ok(doc) => extract_image_path(&doc, shape, index),
        Err(_) => Err(RelayError::UpstreamMalformed),
    }
}

/// The absolute address of an image: the address as the answer gives it
/// where `http` occurs in it, and otherwise the address below `domain`.
pub open spec fn resolved_url(domain: Seq<char>, path: Seq<char>) -> Seq<char> {
    if contains_text(path, "http"@) {
        path
    } else {
        domain + path
    }
}

/// Makes the address of an image absolute.
pub fn resolve_url(domain: &str, path: String) -> (r: String)
    ensures
        r@ == resolved_url(domain@, path@),
{
    if contains(path.as_str(), "http") {
        path
    } else {
        let mut url = domain.to_owned();
        url.append(path.as_str());
        url
    }
}

/// The address at which the upstream service is asked for the image of
/// the day. The model endpoint takes no parameters; the archive endpoint
/// takes the forwarded ones as its query string.
pub open spec fn metadata_url_of(config: RelayConfigView, p: QueryParamsView) -> Result<
    Seq<char>,
    RelayError,
> {
    match config.shape {
        UpstreamShape::Model => Ok(config.domain + config.api_path),
        UpstreamShape::Archive => match joined_fields(upstream_fields(upstream_params(p))) {
            Some(q) => Ok(config.domain + config.api_path + seq!['?'] + q),
            None => Err(RelayError::Internal),
        },
    }
}

/// Builds the address at which the upstream service is asked.
pub fn metadata_url(config: &RelayConfig, params: &RequestQueryParams) -> (r: Result<
    String,
    RelayError,
>)
    ensures
        text_result_view(r) == metadata_url_of(config@, params@),
{
    let mut url = config.domain.clone();
    url.append(config.api_path.as_str());
    match config.shape {
        UpstreamShape::Model => Ok(url),
        UpstreamShape::Archive => match params.to_upstream().to_query() {
            Ok(q) => {
                proof {
                    reveal_strlit("?");
                }
                url.append("?");
                assert("?"@ =~= seq!['?']);
                url.append(q.as_str());
                Ok(url)
            },
            Err(e) => Err(e),
        },
    }
}

proof fn lemma_descend_stops(nodes: Nodes, path: Seq<PathStep>, k: int)
    requires
        0 <= k <= path.len(),
        descend(nodes, path.take(k)) is None,
    ensures
        descend(nodes, path) is None,
    decreases path.len(),
{
    if k == 0 {
        assert(path.take(0).len() == 0);
    } else {
        let head = path.take(k);
        assert(head[0] == path[0]);
        assert(head.drop_first() =~= path.drop_first().take(k - 1));
        if has_child(nodes, path[0]) {
            lemma_descend_stops(subtree(nodes, path[0]), path.drop_first(), k - 1);
        }
    }
}

/// Where the first `k` steps of the image path lead to no value of the
/// answer, the answer is a malformed one.
pub proof fn lemma_broken_path_is_malformed(nodes: Nodes, shape: UpstreamShape, index: nat, k: int)
    requires
        0 <= k <= image_path_steps(shape, index).len(),
        descend(nodes, image_path_steps(shape, index).take(k)) is None,
    ensures
        extracted_path(nodes, shape, index) == Err::<Seq<char>, RelayError>(
            RelayError::UpstreamMalformed,
        ),
{
    lemma_descend_stops(nodes, image_path_steps(shape, index), k);
}

/// An answer of the model endpoint that lists no image at `index`, because
/// its list is shorter or is no list at all, is a malformed one.
pub proof fn lemma_index_out_of_bounds_is_malformed(nodes: Nodes, index: nat)
    requires
        descend(nodes, seq![PathStep::Key("MediaContents"@), PathStep::Index(index)]) is None,
    ensures
        extracted_path(nodes, UpstreamShape::Model, index) == Err::<Seq<char>, RelayError>(
            RelayError::UpstreamMalformed,
        ),
{
    let path = image_path_steps(UpstreamShape::Model, index);
    assert(path.take(2) =~= seq![PathStep::Key("MediaContents"@), PathStep::Index(index)]);
    lemma_broken_path_is_malformed(nodes, UpstreamShape::Model, index, 2);
}

/// An answer of the archive endpoint without the member `images` is a
/// malformed one.
pub proof fn lemma_missing_images_is_malformed(nodes: Nodes, index: nat)
    requires
        !has_child(nodes, PathStep::Key("images"@)),
    ensures
        extracted_path(nodes, UpstreamShape::Archive, index) == Err::<Seq<char>, RelayError>(
            RelayError::UpstreamMalformed,
        ),
{
    let path = image_path_steps(UpstreamShape::Archive, index);
    assert(path[0] == PathStep::Key("images"@));
}

} // verus!
