//! The path of one request, as a machine that the caller drives.
//!
//! Answering a request takes up to two outbound fetches. The relay does
//! not perform them: `begin` and `advance` say what to do next, the caller
//! does it and hands back what came of it. Each request has a phase of its
//! own and nothing else; two requests share no state.

use vstd::prelude::*;
use crate::config::{RelayConfig, RelayConfigView};
use crate::document::parsed_query;
use crate::error::RelayError;
use crate::query::{
    decoded_params, default_params, params_result_view, QueryParamsView, RequestQueryParams,
};
use crate::response::{
    error_response_view, image_response_view, lemma_responses_have_cors, text_response_view,
    Response, ResponseView,
};
use crate::upstream::{
    image_path_from_body, image_path_in_body, metadata_url, metadata_url_of, resolve_url,
    resolved_url, text_result_view,
};

verus! {

/// What came of an outbound fetch.
#[derive(Debug, PartialEq, Eq)]
pub enum Fetched {
    /// The whole body of the answer.
    Body(Vec<u8>),
    /// The fetch failed before a body was read.
    Failed,
}

/// The outcome of a fetch as verification sees it.
pub enum FetchedView {
    Body(Seq<u8>),
    Failed,
}

impl View for Fetched {
    type V = FetchedView;

    open spec fn view(&self) -> FetchedView {
        match self {
            Fetched::Body(b) => FetchedView::Body(b@),
            Fetched::Failed => FetchedView::Failed,
        }
    }
}

/// How far a request has come.
#[derive(Debug, PartialEq, Eq)]
pub enum Phase {
    /// The upstream service has been asked for the description of the image.
    AwaitingMetadata(RequestQueryParams),
    /// The image itself has been asked for.
    AwaitingImage,
    /// The response has been given.
    Done,
}

/// A phase as verification sees it.
pub enum PhaseView {
    AwaitingMetadata(QueryParamsView),
    AwaitingImage,
    Done,
}

impl View for Phase {
    type V = PhaseView;

    open spec fn view(&self) -> PhaseView {
        match self {
            Phase::AwaitingMetadata(p) => PhaseView::AwaitingMetadata(p@),
            Phase::AwaitingImage => PhaseView::AwaitingImage,
            Phase::Done => PhaseView::Done,
        }
    }
}

/// What the caller is to do next.
#[derive(Debug, PartialEq, Eq)]
pub enum Action {
    /// Fetch `url` with GET and hand the outcome to `advance`.
    Fetch { url: String },
    /// Send the response; the request is over.
    Respond(Response),
}

/// An action as verification sees it.
pub enum ActionView {
    Fetch { url: Seq<char> },
    Respond(ResponseView),
}

impl View for Action {
    type V = ActionView;

    open spec fn view(&self) -> ActionView {
        match self {
            Action::Fetch { url } => ActionView::Fetch { url: url@ },
            Action::Respond(r) => ActionView::Respond(r@),
        }
    }
}

/// The end of a request that failed.
pub open spec fn fail(error: RelayError) -> (PhaseView, ActionView) {
    (PhaseView::Done, ActionView::Respond(error_response_view(error)))
}

/// The first step once the parameters are decoded: a bad request is
/// answered at once, and otherwise the upstream service is asked.
pub open spec fn start_with(config: RelayConfigView, params: Result<QueryParamsView, RelayError>)
    -> (PhaseView, ActionView) {
    match params {
        Err(e) => fail(e),
        Ok(p) => match metadata_url_of(config, p) {
            Ok(url) => (PhaseView::AwaitingMetadata(p), ActionView::Fetch { url }),
            Err(e) => fail(e),
        },
    }
}

/// The first step of a request with the given query string. A request
/// without one is treated as one with the empty query string.
pub open spec fn start(config: RelayConfigView, query: Option<Seq<char>>) -> (
    PhaseView,
    ActionView,
) {
    let q = match query {
        Some(q) => q,
        None => Seq::empty(),
    };
    start_with(
        config,
        match parsed_query(q) {
            Some(nodes) => decoded_params(nodes),
            None => Err(RelayError::BadRequest),
        },
    )
}

/// The step after the address of the image was looked for in the answer
/// of the upstream service: a failure is reported; otherwise the address is
/// made absolute and either sent as the response or fetched.
pub open spec fn after_path(
    config: RelayConfigView,
    get_image: bool,
    path: Result<Seq<char>, RelayError>,
) -> (PhaseView, ActionView) {
    match path {
        Err(e) => fail(e),
        Ok(p) => {
            let url = resolved_url(config.domain, p);
            if get_image {
                (PhaseView::AwaitingImage, ActionView::Fetch { url })
            } else {
                (PhaseView::Done, ActionView::Respond(text_response_view(url)))
            }
        },
    }
}

/// The step that follows the outcome of a fetch.
pub open spec fn next(config: RelayConfigView, phase: PhaseView, fetched: FetchedView) -> (
    PhaseView,
    ActionView,
) {
    match phase {
        PhaseView::AwaitingMetadata(p) => match fetched {
            FetchedView::Failed => fail(RelayError::UpstreamUnavailable),
            FetchedView::Body(body) => after_path(
                config,
                p.get_image,
                image_path_in_body(body, config.shape, p.index_past),
            ),
        },
        PhaseView::AwaitingImage => match fetched {
            FetchedView::Failed => fail(RelayError::UpstreamUnavailable),
            FetchedView::Body(body) => (
                PhaseView::Done,
                ActionView::Respond(image_response_view(body, config.image_content_type)),
            ),
        },
        PhaseView::Done => fail(RelayError::Internal),
    }
}

/// A step as verification sees it.
pub open spec fn step_view(step: (Phase, Action)) -> (PhaseView, ActionView) {
    (step.0@, step.1@)
}

fn failed(error: RelayError) -> (r: (Phase, Action))
    ensures
        step_view(r) == fail(error),
{
    (Phase::Done, Action::Respond(Response::failure(error)))
}

/// Takes the first step of a request whose parameters are decoded.
pub fn begin_with(config: &RelayConfig, params: Result<RequestQueryParams, RelayError>) -> (r: (
    Phase,
    Action,
))
    ensures
        step_view(r) == start_with(config@, params_result_view(params)),
{
    match params {
        Err(e) => failed(e),
        Ok(p) => match metadata_url(config, &p) {
            Ok(url) => (Phase::AwaitingMetadata(p), Action::Fetch { url }),
            Err(e) => failed(e),
        },
    }
}

/// Takes the first step of a request, given the query string of its
/// address if it has one. Without a query string, or with the empty one,
/// the request asks for the defaults.
pub fn begin(config: &RelayConfig, query: Option<&str>) -> (r: (Phase, Action))
    ensures
        step_view(r) == start(
            config@,
            match query {
                Some(q) => Some(q@),
                None => None,
            },
        ),
        (query matches Some(q) ==> q@.len() == 0) ==> step_view(r) == start_with(
            config@,
            Ok(default_params()),
        ),
{
    proof {
        reveal_strlit("");
    }
    let q = match query {
        Some(q) => q,
        None => "",
    };
    assert(query is None ==> q@ =~= Seq::<char>::empty());
    begin_with(config, RequestQueryParams::decode(q))
}

/// Takes the step after the address of the image was looked for.
pub fn continue_with(config: &RelayConfig, get_image: bool, path: Result<String, RelayError>) -> (r:
    (Phase, Action))
    ensures
        step_view(r) == after_path(config@, get_image, text_result_view(path)),
{
    match path {
        Err(e) => failed(e),
        Ok(p) => {
            let url = resolve_url(config.domain.as_str(), p);
            if get_image {
                (Phase::AwaitingImage, Action::Fetch { url })
            } else {
                (Phase::Done, Action::Respond(Response::text(url.as_str())))
            }
        },
    }
}

/// Takes the step that follows the outcome of the fetch that the last
/// step asked for.
pub fn advance(config: &RelayConfig, phase: Phase, fetched: Fetched) -> (r: (Phase, Action))
    ensures
        step_view(r) == next(config@, phase@, fetched@),
{
    match phase {
        Phase::AwaitingMetadata(p) => match fetched {
            Fetched::Failed => failed(RelayError::UpstreamUnavailable),
            Fetched::Body(body) => continue_with(
                config,
                p.get_image,
                image_path_from_body(body.as_slice(), config.shape, p.index_past),
            ),
        },
        Phase::AwaitingImage => match fetched {
            Fetched::Failed => failed(RelayError::UpstreamUnavailable),
            Fetched::Body(body) => (
                Phase::Done,
                Action::Respond(Response::image(body, config.image_content_type.as_str())),
            ),
        },
        Phase::Done => failed(RelayError::Internal),
    }
}

/// Every response that a request can end in, whether it succeeds or
/// fails, carries the three cross-origin headers with the value `*`.
pub proof fn lemma_every_response_has_cors(
    config: RelayConfigView,
    query: Option<Seq<char>>,
    phase: PhaseView,
    fetched: FetchedView,
)
    ensures
        start(config, query).1 matches ActionView::Respond(r) ==> r.has_cors(),
        next(config, phase, fetched).1 matches ActionView::Respond(r) ==> r.has_cors(),
{
    lemma_responses_have_cors();
}

/// An answer of the upstream service in which the address of the image
/// cannot be found, whatever else it holds, ends the request with the
/// response for a malformed answer, whose status is 502.
pub proof fn lemma_unreadable_answer_is_reported(
    config: RelayConfigView,
    params: QueryParamsView,
    body: Seq<u8>,
)
    requires
        image_path_in_body(body, config.shape, params.index_past) is Err,
    ensures
        next(config, PhaseView::AwaitingMetadata(params), FetchedView::Body(body)) == fail(
            RelayError::UpstreamMalformed,
        ),
        fail(RelayError::UpstreamMalformed).1 matches ActionView::Respond(r) && r.status == 502,
{
}

/// A step that sends a response ends the request, and a step that asks
/// for a fetch does not.
pub proof fn lemma_respond_ends_request(
    config: RelayConfigView,
    query: Option<Seq<char>>,
    phase: PhaseView,
    fetched: FetchedView,
)
    ensures
        start(config, query).1 is Respond <==> start(config, query).0 is Done,
        next(config, phase, fetched).1 is Respond <==> next(config, phase, fetched).0 is Done,
{
}

} // verus!
