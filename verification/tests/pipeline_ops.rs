use hshopper::catalog::Catalog;
use hshopper::download::DownloadTask;
use hshopper::netsearch::net_search_blocks;
use hshopper::pipeline::{Outcome, Pipeline};

fn lines(v: &[&str]) -> Vec<String> {
    v.iter().map(|s| s.to_string()).collect()
}

#[test]
fn begin_without_content_length_opens_no_task() {
    assert!(DownloadTask::begin("http://x/y.bin", "mario", None).is_none());
}

#[test]
fn begin_with_content_length_starts_at_zero() {
    let task = DownloadTask::begin("http://x/y.bin", "mario", Some(1000)).unwrap();
    assert_eq!(task.source_url, "http://x/y.bin");
    assert_eq!(task.destination_name, "mario");
    assert_eq!(task.total_bytes, 1000);
    assert_eq!(task.transferred_bytes, 0);
    assert_eq!(task.destination_file_name(), "mario.cia");
    assert!(!task.is_complete());
}

#[test]
fn fixed_size_stream_accounts_every_byte() {
    let mut task = DownloadTask::begin("http://x/y.bin", "mario", Some(1000)).unwrap();
    let mut last = (0u64, 0u64);
    for chunk_len in [256u64, 256, 256, 232] {
        last = task.record_chunk(chunk_len);
    }
    assert_eq!(last, (1000, 1000));
    assert!(task.is_complete());
}

#[test]
fn progress_is_monotone_and_totals_fixed() {
    let mut task = DownloadTask::begin("u", "n", Some(10)).unwrap();
    let a = task.record_chunk(3);
    let b = task.record_chunk(0);
    let c = task.record_chunk(7);
    assert_eq!(a, (3, 10));
    assert_eq!(b, (3, 10));
    assert_eq!(c, (10, 10));
}

#[test]
fn start_unknown_title_is_not_found() {
    let c = Catalog::new();
    let p = Pipeline::start(&c, "Mario");
    assert_eq!(p.outcome(), Some(Outcome::NotFound));
}

#[test]
fn start_resolves_normalized_name() {
    let mut c = Catalog::new();
    assert_eq!(c.add_title(77, "mario"), Ok(77));
    let p = Pipeline::start(&c, "Mario");
    match &p {
        Pipeline::AwaitingPage { id, name } => {
            assert_eq!(*id, 77);
            assert_eq!(name.as_str(), "mario");
        },
        other => panic!("expected a resolved id, got outcome {:?}", other.outcome()),
    }
    assert_eq!(p.page_url(), "https://hshop.erista.me/t/77");
}

#[test]
fn missing_content_length_ends_before_any_write() {
    let mut c = Catalog::new();
    assert_eq!(c.add_title(1, "mario"), Ok(1));
    let mut p = Pipeline::start(&c, "mario");
    p.on_page_text(&lines(&["m Direct Download m href=\"http://x/y.bin\" m"]));
    assert!(matches!(p, Pipeline::AwaitingLength { .. }));
    p.on_content_length(None);
    assert_eq!(p.outcome(), Some(Outcome::MissingContentLength));
}

#[test]
fn page_without_marker_ends_not_found() {
    let mut c = Catalog::new();
    assert_eq!(c.add_title(1, "mario"), Ok(1));
    let mut p = Pipeline::start(&c, "mario");
    p.on_page_text(&lines(&["<html>", "nothing"]));
    assert_eq!(p.outcome(), Some(Outcome::NotFound));
}

#[test]
fn marker_without_link_ends_parse_failure() {
    let mut c = Catalog::new();
    assert_eq!(c.add_title(1, "mario"), Ok(1));
    let mut p = Pipeline::start(&c, "mario");
    p.on_page_text(&lines(&["x Direct Download x", "href=\"http://x/y.bin\""]));
    assert_eq!(p.outcome(), Some(Outcome::ParseFailure));
}

#[test]
fn network_and_io_failures_abort() {
    let mut c = Catalog::new();
    assert_eq!(c.add_title(1, "mario"), Ok(1));
    let mut p = Pipeline::start(&c, "mario");
    p.on_network_error();
    assert_eq!(p.outcome(), Some(Outcome::NetworkError));

    let mut q = Pipeline::start(&c, "mario");
    q.on_page_text(&lines(&["m Direct Download m href=\"http://x/y.bin\" m"]));
    q.on_io_error();
    assert_eq!(q.outcome(), Some(Outcome::IoError));
}

#[test]
fn end_to_end_mario_pipeline() {
    let mut c = Catalog::new();
    assert_eq!(c.add_title(77, "mario"), Ok(77));
    let mut p = Pipeline::start(&c, "Mario");
    assert_eq!(p.page_url(), "https://hshop.erista.me/t/77");

    let page = lines(&[
        "<html>",
        "<a title=\"Direct Download\" href=\"http://x/mario.bin\">get</a>",
        "</html>",
    ]);
    p.on_page_text(&page);
    match &p {
        Pipeline::AwaitingLength { url, name } => {
            assert_eq!(url.as_str(), "http://x/mario.bin");
            assert_eq!(name.as_str(), "mario");
        },
        other => panic!("expected a located link, got outcome {:?}", other.outcome()),
    }

    let payload: Vec<u8> = (0..1000u32).map(|i| (i % 251) as u8).collect();
    p.on_content_length(Some(payload.len() as u64));
    let file_name = match &p {
        Pipeline::Receiving { task } => {
            assert_eq!(task.transferred_bytes, 0);
            task.destination_file_name()
        },
        other => panic!("expected a running transfer, got outcome {:?}", other.outcome()),
    };
    assert_eq!(file_name, "mario.cia");

    let mut written: Vec<u8> = Vec::new();
    let mut last = (0u64, 0u64);
    for chunk in payload.chunks(256) {
        written.extend_from_slice(chunk);
        last = p.on_chunk(chunk.len() as u64);
    }
    assert_eq!(last, (1000, 1000));
    assert_eq!(written, payload);
    p.on_stream_end();
    assert_eq!(p.outcome(), Some(Outcome::Completed));
}

#[test]
fn net_search_blocks_brackets_each_result() {
    let page = lines(&[
        "<header>",
        "<p class=\"green bold nospace\">Result One</p>",
        "detail line",
        "</a>",
        "unrelated",
        "<p class=\"green bold nospace\">Result Two</p>",
        "</a>",
    ]);
    let blocks = net_search_blocks(&page);
    assert_eq!(
        blocks,
        vec![
            "BEGIN BLOCK".to_string(),
            "<p class=\"green bold nospace\">Result One</p>".to_string(),
            "detail line".to_string(),
            "</a>".to_string(),
            "END BLOCK".to_string(),
            "BEGIN BLOCK".to_string(),
            "<p class=\"green bold nospace\">Result Two</p>".to_string(),
            "</a>".to_string(),
            "END BLOCK".to_string(),
        ]
    );
}

#[test]
fn net_search_blocks_without_heading_is_empty() {
    let page = lines(&["<header>", "plain", "</a>"]);
    assert!(net_search_blocks(&page).is_empty());
}
