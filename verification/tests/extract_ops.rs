use hshopper::extract::{extract_url, LocateResult};

fn lines(v: &[&str]) -> Vec<String> {
    v.iter().map(|s| s.to_string()).collect()
}

#[test]
fn marker_line_with_href_yields_the_url() {
    let page = lines(&[
        "<html>",
        "<a class=\"btn\" href=\"http://other/page\">Other</a>",
        "<a title=\"Direct Download\" href=\"http://x/y.bin\">get</a>",
        "</html>",
    ]);
    match extract_url(&page) {
        LocateResult::Url(u) => assert_eq!(u, "http://x/y.bin"),
        other => panic!("expected a url, got {other:?}"),
    }
}

#[test]
fn first_marker_line_wins() {
    let page = lines(&[
        "Direct Download href=\"http://first/a.bin\" x",
        "Direct Download href=\"http://second/b.bin\" x",
    ]);
    match extract_url(&page) {
        LocateResult::Url(u) => assert_eq!(u, "http://first/a.bin"),
        other => panic!("expected a url, got {other:?}"),
    }
}

#[test]
fn url_stops_at_closing_quote() {
    let page = lines(&["z Direct Download z href=\"http://x/y.bin\" href=\"http://z\""]);
    match extract_url(&page) {
        LocateResult::Url(u) => assert_eq!(u, "http://x/y.bin"),
        other => panic!("expected a url, got {other:?}"),
    }
}

#[test]
fn no_marker_is_not_found() {
    let page = lines(&["<html>", "href=\"http://x/y.bin\"", "</html>"]);
    assert!(matches!(extract_url(&page), LocateResult::NotFound));
    let empty = lines(&[]);
    assert!(matches!(extract_url(&empty), LocateResult::NotFound));
}

#[test]
fn marker_without_href_is_parse_failure() {
    let page = lines(&["x Direct Download x", "href=\"http://x/y.bin\""]);
    assert!(matches!(extract_url(&page), LocateResult::ParseFailure));
}

#[test]
fn later_marker_lines_are_not_consulted_after_failure() {
    let page = lines(&[
        "x Direct Download x (no link here)",
        "y Direct Download y href=\"http://late/z.bin\" y",
    ]);
    assert!(matches!(extract_url(&page), LocateResult::ParseFailure));
}

#[test]
fn marker_with_unterminated_href_is_parse_failure() {
    let page = lines(&["x Direct Download href=\"http://x/unclosed"]);
    assert!(matches!(extract_url(&page), LocateResult::ParseFailure));
}
