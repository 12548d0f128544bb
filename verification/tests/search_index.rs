use drc::error::IndexError;
use drc::search_index::{IndexInitializer, Stage, Step};

fn tokio() -> IndexInitializer {
    IndexInitializer::new("tokio", "latest")
}

#[test]
fn new_builds_the_base_location() {
    let init = IndexInitializer::new("tokio", "latest");
    assert_eq!(init.crate_name(), "tokio");
    assert_eq!(init.crate_version(), "latest");
    assert_eq!(init.base_url(), "https://docs.rs/tokio/latest/tokio/");
    let init = IndexInitializer::new("serde_json", "1.0.96");
    assert_eq!(init.base_url(), "https://docs.rs/serde_json/1.0.96/serde_json/");
}

#[test]
fn relative_reference_is_resolved_against_the_base() {
    assert_eq!(
        tokio().resolve("search-index.js"),
        Ok(String::from("https://docs.rs/tokio/latest/tokio/search-index.js"))
    );
}

#[test]
fn reference_is_joined_not_concatenated() {
    assert_eq!(
        tokio().resolve("../search-index-1.js"),
        Ok(String::from("https://docs.rs/tokio/latest/search-index-1.js"))
    );
    assert_eq!(
        tokio().resolve("/-/static/search-index.js"),
        Ok(String::from("https://docs.rs/-/static/search-index.js"))
    );
    assert_eq!(
        tokio().resolve("./a/../si.js?v=1"),
        Ok(String::from("https://docs.rs/tokio/latest/tokio/si.js?v=1"))
    );
}

#[test]
fn absolute_reference_passes_through() {
    assert_eq!(
        tokio().resolve("https://static.docs.rs/search-index.js"),
        Ok(String::from("https://static.docs.rs/search-index.js"))
    );
}

#[test]
fn reference_that_cannot_be_joined_is_a_url_error() {
    assert_eq!(tokio().resolve("https://[::1/si.js"), Err(IndexError::Url));
    assert_eq!(tokio().resolve("//[/si.js"), Err(IndexError::Url));
}

#[test]
fn joined_or_error_maps_a_missing_join() {
    assert_eq!(IndexInitializer::joined_or_error(None), Err(IndexError::Url));
    assert_eq!(
        IndexInitializer::joined_or_error(Some(String::from("https://docs.rs/"))),
        Ok(String::from("https://docs.rs/"))
    );
}

#[test]
fn search_index_url_from_the_landing_page() {
    let html = r#"<html><body><div data-search-index-js="si-abc123.js"></div></body></html>"#;
    assert_eq!(
        tokio().search_index_url(html),
        Ok(String::from("https://docs.rs/tokio/latest/tokio/si-abc123.js"))
    );
    let html = r#"<script src="../search-index.js"></script>"#;
    assert_eq!(
        tokio().search_index_url(html),
        Ok(String::from("https://docs.rs/tokio/latest/search-index.js"))
    );
}

#[test]
fn search_index_url_reports_each_failure() {
    assert_eq!(
        tokio().search_index_url("<html></html>"),
        Err(IndexError::NotFound { name: String::from("tokio"), version: String::from("latest") })
    );
    assert_eq!(
        tokio().search_index_url(r#"<div data-search-index-js="https://[::1/si.js"></div>"#),
        Err(IndexError::Url)
    );
}

#[test]
fn retrieval_begins_with_the_landing_page() {
    assert_eq!(
        tokio().begin(),
        Step::Fetch { stage: Stage::Page, url: String::from("https://docs.rs/tokio/latest/tokio/") }
    );
}

#[test]
fn retrieval_runs_end_to_end() {
    let init = tokio();
    let html = String::from(r#"<div data-search-index-js="si-abc123.js"></div>"#);
    let asset = String::from(r#"'{"doc":"it\\\'s fine"}'"#);
    let step = init.begin();
    assert!(matches!(step, Step::Fetch { stage: Stage::Page, .. }));
    let step = init.fetch_search_index(Stage::Page, Ok(html));
    assert_eq!(
        step,
        Step::Fetch {
            stage: Stage::Asset,
            url: String::from("https://docs.rs/tokio/latest/tokio/si-abc123.js")
        }
    );
    let step = init.fetch_search_index(Stage::Asset, Ok(asset));
    assert_eq!(step, Step::Done(String::from(r#"{"doc":"it's fine"}"#)));
}

#[test]
fn payload_is_unescaped_exactly_once() {
    let asset = String::from(r#"var searchIndex = '{"a":"b\\\\\"c"}';"#);
    let step = tokio().fetch_search_index(Stage::Asset, Ok(asset));
    assert_eq!(step, Step::Done(String::from(r#"{"a":"b\"c"}"#)));
    assert_eq!(
        IndexInitializer::format_json(r#"{"a":"b\\\\\"c"}"#),
        String::from(r#"{"a":"b\"c"}"#)
    );
}

#[test]
fn retrieval_ends_on_a_failed_fetch() {
    let reason = String::from("connection reset");
    assert_eq!(
        tokio().fetch_search_index(Stage::Page, Err(reason.clone())),
        Step::Failed(IndexError::Network { reason: reason.clone() })
    );
    assert_eq!(
        tokio().fetch_search_index(Stage::Asset, Err(reason.clone())),
        Step::Failed(IndexError::Network { reason })
    );
}

#[test]
fn retrieval_ends_on_a_page_without_signal() {
    assert_eq!(
        tokio().fetch_search_index(Stage::Page, Ok(String::from("<html><body></body></html>"))),
        Step::Failed(IndexError::NotFound {
            name: String::from("tokio"),
            version: String::from("latest")
        })
    );
}

#[test]
fn retrieval_ends_on_an_asset_without_literal() {
    assert_eq!(
        tokio().fetch_search_index(Stage::Asset, Ok(String::from("var x = 1;"))),
        Step::Failed(IndexError::Format)
    );
    assert_eq!(
        tokio().fetch_search_index(Stage::Asset, Ok(String::from("var x = 'abc;"))),
        Step::Failed(IndexError::Format)
    );
}

#[test]
fn page_text_is_not_read_as_an_asset() {
    let text = String::from(r#"<div data-search-index-js='a.js'></div>"#);
    assert_eq!(
        tokio().fetch_search_index(Stage::Page, Ok(text.clone())),
        Step::Fetch { stage: Stage::Asset, url: String::from("https://docs.rs/tokio/latest/tokio/a.js") }
    );
    assert_eq!(
        tokio().fetch_search_index(Stage::Asset, Ok(text)),
        Step::Done(String::from("a.js"))
    );
}

#[test]
fn not_found_names_package_and_version() {
    assert_eq!(
        tokio().not_found(),
        IndexError::NotFound { name: String::from("tokio"), version: String::from("latest") }
    );
}

#[test]
fn messages_report_each_error() {
    assert_eq!(tokio().not_found().message(), "Cannot find search index file for tokio@latest");
    assert_eq!(IndexError::Format.message(), "Invalid format of JSON search index");
    assert_eq!(IndexError::Url.message(), "Invalid URL of search index");
    assert_eq!(
        IndexError::Network { reason: String::from("timed out") }.message(),
        "timed out"
    );
}
