use iiif_viewer::search::{SearchQuery, SearchResult, SearchResults};

#[test]
fn search_results_parse_well_formed_response() {
    let text = r##"[
        {"url": "u1", "title": "t1", "description": "d1", "thumbnail": "th1"},
        {"url": "u2", "title": "t2", "description": "d2", "thumbnail": null},
        {"url": "u3", "title": "t3", "description": "d3"}
    ]"##;
    let results = SearchResults::new(text.to_string());
    assert_eq!(results.len(), 3);
    let first = results.get(0).unwrap();
    assert_eq!(first.url(), "u1");
    assert_eq!(first.title(), "t1");
    assert_eq!(first.description(), "d1");
    assert_eq!(first.thumbnail(), Some("th1".to_string()));
    // a null thumbnail and an absent one both mean "no thumbnail"
    assert_eq!(results.get(1).unwrap().thumbnail(), None);
    assert_eq!(results.get(2).unwrap().thumbnail(), None);
    assert!(results.get(3).is_none());
}

#[test]
fn search_results_invalid_json_yields_empty() {
    assert_eq!(SearchResults::new("{broken".to_string()).len(), 0);
}

#[test]
fn search_results_non_array_yields_empty() {
    assert_eq!(SearchResults::new(r##"{"url": "u"}"##.to_string()).len(), 0);
}

#[test]
fn search_results_one_malformed_element_yields_empty() {
    let text = r##"[
        {"url": "u1", "title": "t1", "description": "d1"},
        {"title": "no url here", "description": "d2"}
    ]"##;
    assert_eq!(SearchResults::new(text.to_string()).len(), 0);
}

#[test]
fn search_results_wrongly_typed_field_yields_empty() {
    let text = r##"[{"url": 5, "title": "t", "description": "d"}]"##;
    assert_eq!(SearchResults::new(text.to_string()).len(), 0);
}

#[test]
fn search_result_constructor_and_getters() {
    let r = SearchResult::new(
        "u".to_string(),
        "t".to_string(),
        "d".to_string(),
        Some("th".to_string()),
    );
    assert_eq!(r.url(), "u");
    assert_eq!(r.title(), "t");
    assert_eq!(r.description(), "d");
    assert_eq!(r.thumbnail(), Some("th".to_string()));
}

#[test]
fn search_query_defaults() {
    let q = SearchQuery::new("hokusai".to_string());
    assert_eq!(q.query(), "hokusai");
    assert_eq!(q.theme(), "");
    assert_eq!(q.sort(), "");
    assert_eq!(q.rows(), 10);
}

#[test]
fn search_query_setters() {
    let mut q = SearchQuery::new("q".to_string());
    q.set_theme("art".to_string());
    q.set_sort("date".to_string());
    assert_eq!(q.theme(), "art");
    assert_eq!(q.sort(), "date");
}

/// The row count is clamped, not rejected, into the 0-255 range.
#[test]
fn search_query_rows_are_clamped() {
    let mut q = SearchQuery::new("q".to_string());
    q.set_rows(0);
    assert_eq!(q.rows(), 0);
    q.set_rows(255);
    assert_eq!(q.rows(), 255);
    q.set_rows(256);
    assert_eq!(q.rows(), 255);
    q.set_rows(70000);
    assert_eq!(q.rows(), 255);
    q.set_rows(25);
    assert_eq!(q.rows(), 25);
}

#[test]
fn search_query_json_exact_output() {
    let mut q = SearchQuery::new("great wave".to_string());
    q.set_theme("art".to_string());
    assert_eq!(q.json(), r##"{"query":"great wave","theme":"art","sort":"","rows":10}"##);
    // the same text serde_json produces for an equivalent value
    let parsed: serde_json::Value = serde_json::from_str(&q.json()).unwrap();
    assert_eq!(parsed["query"].as_str().unwrap(), "great wave");
    assert_eq!(parsed["rows"].as_u64().unwrap(), 10);
}

#[test]
fn search_query_json_escapes_the_query() {
    let q = SearchQuery::new("say \"wave\"".to_string());
    assert_eq!(q.json(), "{\"query\":\"say \\\"wave\\\"\",\"theme\":\"\",\"sort\":\"\",\"rows\":10}");
}
