use image_relay::config::{RelayConfig, UpstreamShape};
use image_relay::document::{text_at, Step};
use image_relay::error::RelayError;
use image_relay::query::RequestQueryParams;
use image_relay::upstream::{
    extract_image_path, image_path_from_body, metadata_url, resolve_url,
};

fn key(k: &str) -> Step {
    Step::Key(k.to_string())
}

#[test]
fn text_is_found_by_path() {
    let doc: serde_json::Value =
        serde_json::from_str(r#"{"a":[{"b":"first"},{"b":"second","c":null}],"s":"top"}"#)
            .unwrap();
    assert_eq!(text_at(&doc, &vec![key("s")]), Some("top".to_string()));
    assert_eq!(
        text_at(&doc, &vec![key("a"), Step::Index(1), key("b")]),
        Some("second".to_string())
    );
    assert_eq!(
        text_at(&doc, &vec![key("a"), Step::Index(0), key("b")]),
        Some("first".to_string())
    );
    assert_eq!(text_at(&doc, &vec![key("a"), Step::Index(2), key("b")]), None);
    assert_eq!(text_at(&doc, &vec![key("a"), key("0"), key("b")]), None);
    assert_eq!(text_at(&doc, &vec![key("s"), Step::Index(0)]), None);
    assert_eq!(text_at(&doc, &vec![key("a"), Step::Index(1), key("c")]), None);
    assert_eq!(text_at(&doc, &vec![key("a")]), None);
    assert_eq!(text_at(&doc, &vec![]), None);
    let plain: serde_json::Value = serde_json::from_str(r#""just text""#).unwrap();
    assert_eq!(text_at(&plain, &vec![]), Some("just text".to_string()));
}

#[test]
fn archive_answer_is_read_at_the_first_image() {
    let body = br#"{"images":[{"url":"/th?id=OHR.Test_EN-US"},{"url":"/th?id=Other"}]}"#;
    assert_eq!(
        image_path_from_body(body, UpstreamShape::Archive, 0),
        Ok("/th?id=OHR.Test_EN-US".to_string())
    );
    assert_eq!(
        image_path_from_body(body, UpstreamShape::Archive, 1),
        Ok("/th?id=OHR.Test_EN-US".to_string())
    );
}

#[test]
fn model_answer_is_read_at_the_index() {
    let body = br#"{"MediaContents":[
        {"ImageContent":{"Image":{"Url":"/th?id=today"}}},
        {"ImageContent":{"Image":{"Url":"/th?id=yesterday"}}}]}"#;
    assert_eq!(
        image_path_from_body(body, UpstreamShape::Model, 0),
        Ok("/th?id=today".to_string())
    );
    assert_eq!(
        image_path_from_body(body, UpstreamShape::Model, 1),
        Ok("/th?id=yesterday".to_string())
    );
    assert_eq!(
        image_path_from_body(body, UpstreamShape::Model, 2),
        Err(RelayError::UpstreamMalformed)
    );
    assert_eq!(
        image_path_from_body(body, UpstreamShape::Model, usize::MAX),
        Err(RelayError::UpstreamMalformed)
    );
}

#[test]
fn answers_of_the_other_shape_are_malformed() {
    let archive = br#"{"images":[{"url":"/a"}]}"#;
    let model = br#"{"MediaContents":[{"ImageContent":{"Image":{"Url":"/m"}}}]}"#;
    assert_eq!(
        image_path_from_body(archive, UpstreamShape::Model, 0),
        Err(RelayError::UpstreamMalformed)
    );
    assert_eq!(
        image_path_from_body(model, UpstreamShape::Archive, 0),
        Err(RelayError::UpstreamMalformed)
    );
}

#[test]
fn bodies_that_are_not_json_are_malformed() {
    for body in [&b""[..], b"{", b"<html></html>", b"{\"images\":[{\"url\":\"/a\"}]} x", &[0xff, 0xfe]]
    {
        assert_eq!(
            image_path_from_body(body, UpstreamShape::Archive, 0),
            Err(RelayError::UpstreamMalformed)
        );
    }
}

#[test]
fn addresses_that_are_not_text_are_malformed() {
    for body in [
        &br#"{"images":[{"url":5}]}"#[..],
        br#"{"images":[{"url":null}]}"#,
        br#"{"images":[{"url":["/a"]}]}"#,
        br#"{"images":[]}"#,
        br#"{"images":{"0":{"url":"/a"}}}"#,
        br#"{"images":[{"URL":"/a"}]}"#,
        br#"{}"#,
        br#"[]"#,
    ] {
        assert_eq!(
            image_path_from_body(body, UpstreamShape::Archive, 0),
            Err(RelayError::UpstreamMalformed)
        );
    }
}

#[test]
fn extraction_works_on_a_parsed_document() {
    let doc: serde_json::Value =
        serde_json::from_str(r#"{"images":[{"url":"https://cdn.example.com/x.jpg"}]}"#).unwrap();
    assert_eq!(
        extract_image_path(&doc, UpstreamShape::Archive, 0),
        Ok("https://cdn.example.com/x.jpg".to_string())
    );
    assert_eq!(
        extract_image_path(&doc, UpstreamShape::Model, 0),
        Err(RelayError::UpstreamMalformed)
    );
}

#[test]
fn relative_addresses_get_the_domain() {
    assert_eq!(
        resolve_url("https://www.bing.com", "/th?id=OHR.Test_EN-US".to_string()),
        "https://www.bing.com/th?id=OHR.Test_EN-US"
    );
    assert_eq!(resolve_url("https://www.bing.com", String::new()), "https://www.bing.com");
}

#[test]
fn addresses_with_a_scheme_are_kept() {
    assert_eq!(
        resolve_url("https://www.bing.com", "https://cdn.example.com/x.jpg".to_string()),
        "https://cdn.example.com/x.jpg"
    );
    assert_eq!(
        resolve_url("https://www.bing.com", "http://plain.example.com/".to_string()),
        "http://plain.example.com/"
    );
    assert_eq!(
        resolve_url("https://www.bing.com", "/redirect?to=http".to_string()),
        "/redirect?to=http"
    );
}

#[test]
fn model_endpoint_takes_no_parameters() {
    let p = RequestQueryParams { index_past: 3, number: 2, locale: "de-DE".to_string(), get_image: true };
    assert_eq!(
        metadata_url(&RelayConfig::model(), &p),
        Ok("https://www.bing.com/hp/api/model".to_string())
    );
}

#[test]
fn archive_endpoint_takes_the_forwarded_parameters() {
    assert_eq!(
        metadata_url(&RelayConfig::archive(), &RequestQueryParams::default()),
        Ok("https://www.bing.com/HPImageArchive.aspx?format=js&idx=0&n=1&mkt=en-US".to_string())
    );
    let p = RequestQueryParams { index_past: 3, number: 2, locale: "de DE".to_string(), get_image: true };
    assert_eq!(
        metadata_url(&RelayConfig::archive(), &p),
        Ok("https://www.bing.com/HPImageArchive.aspx?format=js&idx=3&n=2&mkt=de+DE".to_string())
    );
}
