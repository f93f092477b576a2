use image_relay::config::{RelayConfig, UpstreamShape};
use image_relay::error::RelayError;
use image_relay::handler::{advance, begin, begin_with, continue_with, Action, Fetched, Phase};
use image_relay::query::RequestQueryParams;
use image_relay::response::Response;

fn header<'a>(r: &'a Response, name: &str) -> Vec<&'a str> {
    r.headers.iter().filter(|h| h.0 == name).map(|h| h.1.as_str()).collect()
}

fn assert_cors(r: &Response) {
    assert_eq!(header(r, "Access-Control-Allow-Origin"), vec!["*"]);
    assert_eq!(header(r, "Access-Control-Allow-Headers"), vec!["*"]);
    assert_eq!(header(r, "Access-Control-Allow-Method"), vec!["*"]);
}

fn stub_config(shape: UpstreamShape) -> RelayConfig {
    let mut c = match shape {
        UpstreamShape::Archive => RelayConfig::archive(),
        UpstreamShape::Model => RelayConfig::model(),
    };
    c.api_path = "/stub".to_string();
    c
}

fn respond(step: (Phase, Action)) -> Response {
    match step {
        (Phase::Done, Action::Respond(r)) => r,
        other => panic!("expected a response, got {:?}", other),
    }
}

fn fetch(step: (Phase, Action)) -> (Phase, String) {
    match step {
        (phase, Action::Fetch { url }) => {
            assert_ne!(phase, Phase::Done);
            (phase, url)
        }
        other => panic!("expected a fetch, got {:?}", other),
    }
}

const RELATIVE: &[u8] = br#"{"images":[{"url":"/th?id=OHR.Test_EN-US"}]}"#;
const ABSOLUTE: &[u8] = br#"{"images":[{"url":"https://cdn.example.com/x.jpg"}]}"#;

#[test]
fn relative_address_is_answered_below_the_domain() {
    let config = RelayConfig::archive();
    let (phase, url) = fetch(begin(&config, Some("get_image=false")));
    assert_eq!(url, "https://www.bing.com/HPImageArchive.aspx?format=js&idx=0&n=1&mkt=en-US");
    let r = respond(advance(&config, phase, Fetched::Body(RELATIVE.to_vec())));
    assert_eq!(r.status, 200);
    assert_eq!(r.body, b"https://www.bing.com/th?id=OHR.Test_EN-US".to_vec());
    assert_cors(&r);
    assert_eq!(r.headers.len(), 3);
}

#[test]
fn absolute_address_is_answered_verbatim() {
    let config = RelayConfig::archive();
    let (phase, _) = fetch(begin(&config, Some("get_image=false")));
    let r = respond(advance(&config, phase, Fetched::Body(ABSOLUTE.to_vec())));
    assert_eq!(r.status, 200);
    assert_eq!(r.body, b"https://cdn.example.com/x.jpg".to_vec());
    assert_cors(&r);
}

#[test]
fn image_bytes_are_answered_exactly() {
    let image: Vec<u8> = vec![0xFF, 0xD8, 0xFF, 0xE0, 0x00, 0x10, 0x4A, 0x46, 0x49, 0x46, 0x00];
    let config = RelayConfig::archive();
    let (phase, _) = fetch(begin(&config, Some("get_image=true")));
    let (phase, url) = fetch(advance(&config, phase, Fetched::Body(RELATIVE.to_vec())));
    assert_eq!(phase, Phase::AwaitingImage);
    assert_eq!(url, "https://www.bing.com/th?id=OHR.Test_EN-US");
    let r = respond(advance(&config, phase, Fetched::Body(image.clone())));
    assert_eq!(r.status, 200);
    assert_eq!(r.body, image);
    assert_eq!(header(&r, "Content-Type"), vec!["image/jpeg"]);
    assert_cors(&r);
}

#[test]
fn model_variant_declares_webp() {
    let config = RelayConfig::model();
    let (phase, url) = fetch(begin(&config, Some("get_image=true&index_past=1")));
    assert_eq!(url, "https://www.bing.com/hp/api/model");
    let body = br#"{"MediaContents":[
        {"ImageContent":{"Image":{"Url":"/th?id=a"}}},
        {"ImageContent":{"Image":{"Url":"/th?id=b"}}}]}"#;
    let (phase, url) = fetch(advance(&config, phase, Fetched::Body(body.to_vec())));
    assert_eq!(url, "https://www.bing.com/th?id=b");
    let r = respond(advance(&config, phase, Fetched::Body(vec![1, 2, 3])));
    assert_eq!(r.body, vec![1, 2, 3]);
    assert_eq!(header(&r, "Content-Type"), vec!["image/webp"]);
    assert_cors(&r);
}

#[test]
fn empty_image_is_answered_as_it_is() {
    let config = RelayConfig::model();
    let r = respond(advance(&config, Phase::AwaitingImage, Fetched::Body(vec![])));
    assert_eq!(r.status, 200);
    assert!(r.body.is_empty());
}

#[test]
fn missing_query_string_is_the_empty_one() {
    let config = RelayConfig::model();
    let with_none = begin(&config, None);
    let with_empty = begin(&config, Some(""));
    assert_eq!(with_none, with_empty);
    let (phase, _) = fetch(with_none);
    assert_eq!(phase, Phase::AwaitingMetadata(RequestQueryParams::default()));
}

#[test]
fn bad_query_is_answered_with_400() {
    for config in [RelayConfig::model(), RelayConfig::archive()] {
        let r = respond(begin(&config, Some("index_past=many")));
        assert_eq!(r.status, 400);
        assert_eq!(r.body, b"bad request".to_vec());
        assert_cors(&r);
    }
}

#[test]
fn index_beyond_the_list_is_answered_with_502() {
    let config = RelayConfig::model();
    let (phase, _) = fetch(begin(&config, Some("index_past=8")));
    let body = br#"{"MediaContents":[{"ImageContent":{"Image":{"Url":"/th?id=a"}}}]}"#;
    let r = respond(advance(&config, phase, Fetched::Body(body.to_vec())));
    assert_eq!(r.status, 502);
    assert_eq!(r.body, b"upstream malformed".to_vec());
    assert_cors(&r);
}

#[test]
fn answer_without_images_is_answered_with_502() {
    let config = RelayConfig::archive();
    for body in [&br#"{"tooltips":{}}"#[..], b"{}", b"not json at all"] {
        let (phase, _) = fetch(begin(&config, None));
        let r = respond(advance(&config, phase, Fetched::Body(body.to_vec())));
        assert_eq!(r.status, 502);
        assert_eq!(r.body, b"upstream malformed".to_vec());
        assert_cors(&r);
    }
}

#[test]
fn failed_fetches_are_answered_with_502() {
    let config = RelayConfig::archive();
    let (phase, _) = fetch(begin(&config, Some("get_image=true")));
    let r = respond(advance(&config, phase, Fetched::Failed));
    assert_eq!(r.status, 502);
    assert_eq!(r.body, b"upstream unavailable".to_vec());
    assert_cors(&r);

    let (phase, _) = fetch(begin(&config, Some("get_image=true")));
    let (phase, _) = fetch(advance(&config, phase, Fetched::Body(RELATIVE.to_vec())));
    let r = respond(advance(&config, phase, Fetched::Failed));
    assert_eq!(r.status, 502);
    assert_eq!(r.body, b"upstream unavailable".to_vec());
    assert_cors(&r);
}

#[test]
fn a_finished_request_cannot_go_on() {
    let config = RelayConfig::model();
    for fetched in [Fetched::Failed, Fetched::Body(vec![1])] {
        let r = respond(advance(&config, Phase::Done, fetched));
        assert_eq!(r.status, 500);
        assert_eq!(r.body, b"internal error".to_vec());
        assert_cors(&r);
    }
}

#[test]
fn every_failure_has_its_status() {
    assert_eq!(RelayError::BadRequest.status(), 400);
    assert_eq!(RelayError::UpstreamUnavailable.status(), 502);
    assert_eq!(RelayError::UpstreamMalformed.status(), 502);
    assert_eq!(RelayError::Internal.status(), 500);
    for e in [
        RelayError::BadRequest,
        RelayError::UpstreamUnavailable,
        RelayError::UpstreamMalformed,
        RelayError::Internal,
    ] {
        let r = Response::failure(e);
        assert_eq!(r.status, e.status());
        assert_eq!(r.body, e.message().as_bytes().to_vec());
        assert_cors(&r);
    }
}

#[test]
fn decoded_parameters_start_a_request() {
    let config = stub_config(UpstreamShape::Model);
    let p = RequestQueryParams { index_past: 2, number: 1, locale: "en-US".to_string(), get_image: true };
    let (phase, url) = fetch(begin_with(&config, Ok(p)));
    assert_eq!(url, "https://www.bing.com/stub");
    assert!(matches!(phase, Phase::AwaitingMetadata(ref q) if q.index_past == 2 && q.get_image));
    let r = respond(begin_with(&config, Err(RelayError::BadRequest)));
    assert_eq!(r.status, 400);
}

#[test]
fn a_found_address_is_sent_or_fetched() {
    let config = RelayConfig::model();
    let r = respond(continue_with(&config, false, Ok("/x".to_string())));
    assert_eq!(r, Response::text("https://www.bing.com/x"));
    let (phase, url) = fetch(continue_with(&config, true, Ok("http://h/x".to_string())));
    assert_eq!(phase, Phase::AwaitingImage);
    assert_eq!(url, "http://h/x");
    let r = respond(continue_with(&config, true, Err(RelayError::UpstreamMalformed)));
    assert_eq!(r, Response::failure(RelayError::UpstreamMalformed));
}

#[test]
fn text_response_holds_the_address_as_utf8() {
    let r = Response::text("https://h/\u{e9}");
    assert_eq!(r.status, 200);
    assert_eq!(r.body, vec![b'h', b't', b't', b'p', b's', b':', b'/', b'/', b'h', b'/', 0xC3, 0xA9]);
    assert_eq!(
        r.headers,
        vec![
            ("Access-Control-Allow-Origin".to_string(), "*".to_string()),
            ("Access-Control-Allow-Headers".to_string(), "*".to_string()),
            ("Access-Control-Allow-Method".to_string(), "*".to_string()),
        ]
    );
}

#[test]
fn image_response_declares_the_given_type_last() {
    let r = Response::image(vec![9, 8], "image/png");
    assert_eq!(r.headers.len(), 4);
    assert_eq!(r.headers[3], ("Content-Type".to_string(), "image/png".to_string()));
    assert_cors(&r);
}

#[test]
fn interleaved_requests_do_not_mix() {
    let config = RelayConfig::model();
    let bodies: Vec<Vec<u8>> = (0..5)
        .map(|i| {
            format!(r#"{{"MediaContents":[{{"ImageContent":{{"Image":{{"Url":"/th?id={}"}}}}}}]}}"#, i)
                .into_bytes()
        })
        .collect();
    let mut phases: Vec<Phase> = Vec::new();
    for _ in 0..5 {
        let (phase, _) = fetch(begin(&config, Some("index_past=0")));
        phases.push(phase);
    }
    let mut answers: Vec<(usize, Response)> = Vec::new();
    for (i, phase) in phases.into_iter().enumerate().rev() {
        answers.push((i, respond(advance(&config, phase, Fetched::Body(bodies[i].clone())))));
    }
    for (i, r) in answers {
        assert_eq!(r.body, format!("https://www.bing.com/th?id={}", i).into_bytes());
        let (phase, _) = fetch(begin(&config, Some("index_past=0")));
        assert_eq!(r, respond(advance(&config, phase, Fetched::Body(bodies[i].clone()))));
    }
}

#[test]
fn public_settings_are_the_documented_ones() {
    let m = RelayConfig::model();
    assert_eq!(m.domain, "https://www.bing.com");
    assert_eq!(m.api_path, "/hp/api/model");
    assert_eq!(m.shape, UpstreamShape::Model);
    assert_eq!(m.image_content_type, "image/webp");
    assert_eq!(m.listen_address, "0.0.0.0:3000");
    let a = RelayConfig::archive();
    assert_eq!(a.domain, "https://www.bing.com");
    assert_eq!(a.shape, UpstreamShape::Archive);
    assert_eq!(a.image_content_type, "image/jpeg");
    assert_eq!(a.listen_address, "0.0.0.0:3000");
}
