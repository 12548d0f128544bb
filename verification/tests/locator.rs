use drc::error::IndexError;
use drc::locator::{first_marked, first_naming, locate, pick};
use drc::search_index::IndexInitializer;

fn some(text: &str) -> Option<String> {
    Some(String::from(text))
}

fn tokio() -> IndexInitializer {
    IndexInitializer::new("tokio", "latest")
}

fn miss() -> IndexError {
    IndexError::NotFound { name: String::from("tokio"), version: String::from("latest") }
}

#[test]
fn primary_signal_wins_over_fallback() {
    let html = r#"<html><head><script src="/search-index-old.js"></script></head>
        <body><div id="x"></div><div data-search-index-js="si-new.js"></div></body></html>"#;
    assert_eq!(tokio().extract_search_index_filename(html), Ok(String::from("si-new.js")));
    assert_eq!(locate(html), some("si-new.js"));
}

#[test]
fn first_primary_signal_is_taken() {
    let html = r#"<div data-search-index-js="first.js"></div><div data-search-index-js="second.js"></div>"#;
    assert_eq!(tokio().extract_search_index_filename(html), Ok(String::from("first.js")));
}

#[test]
fn fallback_takes_the_first_marked_script() {
    let html = r#"<html><head><script src="main.js"></script><script></script>
        <script src="../search-index1.50.js"></script><script src="search-index2.js"></script>
        </head><body><div class="a"></div></body></html>"#;
    assert_eq!(
        tokio().extract_search_index_filename(html),
        Ok(String::from("../search-index1.50.js"))
    );
}

#[test]
fn page_without_signal_is_not_found() {
    let html = r#"<html><head><script src="main.js"></script></head><body><div></div><p data-search-index-js="p.js"></p></body></html>"#;
    assert_eq!(tokio().extract_search_index_filename(html), Err(miss()));
    assert_eq!(tokio().extract_search_index_filename(""), Err(miss()));
    assert_eq!(locate("plain text, no markup"), None);
}

#[test]
fn malformed_markup_is_tolerated() {
    let html = r#"<div data-search-index-js="si.js"<<<p></div></span><script src="#;
    assert_eq!(tokio().extract_search_index_filename(html), Ok(String::from("si.js")));
    assert_eq!(tokio().extract_search_index_filename("<div <script </"), Err(miss()));
}

#[test]
fn empty_primary_value_is_no_signal() {
    let html = r#"<div data-search-index-js=""></div><script src="search-index.js"></script>"#;
    assert_eq!(tokio().extract_search_index_filename(html), Ok(String::from("search-index.js")));
    let html = r#"<div data-search-index-js=""></div><div data-search-index-js="b.js"></div>"#;
    assert_eq!(tokio().extract_search_index_filename(html), Ok(String::from("b.js")));
    let html = r#"<div data-search-index-js></div>"#;
    assert_eq!(tokio().extract_search_index_filename(html), Err(miss()));
}

#[test]
fn pick_prefers_blocks() {
    let blocks = vec![None, some("si-abc.js"), some("other.js")];
    let scripts = vec![some("search-index.js")];
    assert_eq!(pick(&blocks, &scripts), some("si-abc.js"));
}

#[test]
fn pick_falls_back_to_scripts() {
    let blocks = vec![None, some(""), None];
    let scripts = vec![None, some("main.js"), some("a/search-index.js"), some("search-index2.js")];
    assert_eq!(pick(&blocks, &scripts), some("a/search-index.js"));
    assert_eq!(pick(&Vec::new(), &scripts), some("a/search-index.js"));
}

#[test]
fn pick_finds_nothing_without_signal() {
    let blocks = vec![None, some("")];
    let scripts = vec![None, some("main.js"), some("search_index.js")];
    assert_eq!(pick(&blocks, &scripts), None);
    assert_eq!(pick(&Vec::new(), &Vec::new()), None);
}

#[test]
fn first_naming_skips_absent_and_empty() {
    assert_eq!(first_naming(&vec![None, some(""), some("x"), some("y")]), some("x"));
    assert_eq!(first_naming(&vec![None, some("")]), None);
    assert_eq!(first_naming(&vec![some("search-index")]), some("search-index"));
}

#[test]
fn first_marked_wants_the_marker() {
    assert_eq!(first_marked(&vec![some("x"), None, some("search-index")]), some("search-index"));
    assert_eq!(first_marked(&vec![some("x"), some("search"), some("index")]), None);
    assert_eq!(first_marked(&Vec::new()), None);
}

#[test]
fn filename_among_names_the_package_on_a_miss() {
    let init = IndexInitializer::new("serde", "1.0.0");
    assert_eq!(
        init.filename_among(&vec![None], &vec![some("main.js")]),
        Err(IndexError::NotFound { name: String::from("serde"), version: String::from("1.0.0") })
    );
    assert_eq!(init.filename_among(&vec![some("a.js")], &Vec::new()), Ok(String::from("a.js")));
    assert_eq!(
        init.filename_among(&Vec::new(), &vec![some("search-index.js")]),
        Ok(String::from("search-index.js"))
    );
}
