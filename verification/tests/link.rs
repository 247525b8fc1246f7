use docfetch::config::{Config, DEFAULT_PATTERN};
use docfetch::error::FetchError;
use docfetch::link::{link_from_match, resolve};

#[test]
fn resolves_anchor_with_default_pattern() {
    let page = "<a download href=\"/docs/x.pdf\">X</a>";
    assert_eq!(resolve(page, DEFAULT_PATTERN), Ok("/docs/x.pdf".to_string()));
}

#[test]
fn resolved_document_url_joins_domain_and_path() {
    let config = Config {
        domain: Some("http://example.test".to_string()),
        url: None,
        re: None,
    };
    let page = "<a download href=\"/docs/x.pdf\">X</a>";
    let path = resolve(page, config.pattern()).unwrap();
    assert_eq!(config.document_url(&path), "http://example.test/docs/x.pdf");
}

#[test]
fn returns_first_capture_group_not_whole_match() {
    let page = "<p>intro</p><a download href=\"files/list.doc\">list</a><p>end</p>";
    let path = resolve(page, DEFAULT_PATTERN).unwrap();
    assert_eq!(path, "files/list.doc");
    assert_ne!(path, page);
    assert_ne!(path, DEFAULT_PATTERN);
}

#[test]
fn leftmost_anchor_wins() {
    let page = "<a download href=\"/a.pdf\">A</a> <a download href=\"/b.pdf\">B</a>";
    assert_eq!(resolve(page, DEFAULT_PATTERN), Ok("/a.pdf".to_string()));
}

#[test]
fn page_without_anchor_is_link_not_found() {
    let page = "<a href=\"/docs/x.pdf\">X</a>";
    assert_eq!(resolve(page, DEFAULT_PATTERN), Err(FetchError::LinkNotFound));
}

#[test]
fn empty_page_is_link_not_found() {
    assert_eq!(resolve("", DEFAULT_PATTERN), Err(FetchError::LinkNotFound));
}

#[test]
fn href_outside_the_default_alphabet_is_not_matched() {
    let page = "<a download href=\"/docs/x-1.pdf\">X</a>";
    assert_eq!(resolve(page, DEFAULT_PATTERN), Err(FetchError::LinkNotFound));
}

#[test]
fn empty_href_is_an_empty_path() {
    let page = "<a download href=\"\">X</a>";
    assert_eq!(resolve(page, DEFAULT_PATTERN), Ok(String::new()));
}

#[test]
fn malformed_pattern_is_invalid_pattern() {
    assert_eq!(resolve("anything", "href=\"("), Err(FetchError::InvalidPattern));
}

#[test]
fn malformed_pattern_is_invalid_whatever_the_page() {
    assert_eq!(resolve("", "[a-"), Err(FetchError::InvalidPattern));
    assert_eq!(resolve("[a-", "[a-"), Err(FetchError::InvalidPattern));
}

#[test]
fn custom_pattern_captures_its_first_group() {
    let page = "see link: /pub/report.txt (size: 12)";
    assert_eq!(
        resolve(page, "link: (\\S+) \\(size: (\\d+)\\)"),
        Ok("/pub/report.txt".to_string())
    );
}

#[test]
fn match_without_a_capture_group_is_link_not_found() {
    assert_eq!(resolve("abc", "abc"), Err(FetchError::LinkNotFound));
}

#[test]
fn match_whose_first_group_took_no_part_is_link_not_found() {
    assert_eq!(resolve("xb", "x(?:(a)|b)"), Err(FetchError::LinkNotFound));
    assert_eq!(resolve("xa", "x(?:(a)|b)"), Ok("a".to_string()));
}

#[test]
fn link_from_match_keeps_the_captured_text() {
    assert_eq!(
        link_from_match(Some(Some("/docs/x.pdf".to_string()))),
        Ok("/docs/x.pdf".to_string())
    );
}

#[test]
fn link_from_match_without_a_capture_is_link_not_found() {
    assert_eq!(link_from_match(None), Err(FetchError::LinkNotFound));
    assert_eq!(link_from_match(Some(None)), Err(FetchError::LinkNotFound));
}
