use soyjak_archiver::board::Board;
use soyjak_archiver::document::{Document, Node};
use soyjak_archiver::download::{Batch, Progress};
use soyjak_archiver::file::{File, FileError};
use soyjak_archiver::thread::{FetchError, Thread};

const ALL_BOARDS: [Board; 28] = [
    Board::Soy,
    Board::QuestionsAndAnswers,
    Board::Raid,
    Board::ShartyStation,
    Board::Requests,
    Board::Soy2,
    Board::TheDollHouse,
    Board::Minecraft,
    Board::International,
    Board::Politics,
    Board::Anime,
    Board::AnimalsAndNature,
    Board::AllSports,
    Board::MediaAndInterests,
    Board::R9K,
    Board::Technology,
    Board::VidyaGames,
    Board::Paranormal,
    Board::Cacaborea,
    Board::Cado,
    Board::Gigachads,
    Board::Jaks,
    Board::Sneed,
    Board::Sude,
    Board::Nonsense,
    Board::Meta,
    Board::News,
    Board::Archive,
];

fn element(nodes: &mut Vec<Node>, parent: Option<usize>, tag: &str) -> usize {
    nodes.push(Node { parent, tag: Some(tag.to_string()), href: None });
    nodes.len() - 1
}

fn link(nodes: &mut Vec<Node>, parent: usize, href: Option<&str>) -> usize {
    nodes.push(Node {
        parent: Some(parent),
        tag: Some("a".to_string()),
        href: href.map(|h| h.to_string()),
    });
    nodes.len() - 1
}

fn text(nodes: &mut Vec<Node>, parent: usize) -> usize {
    nodes.push(Node { parent: Some(parent), tag: None, href: None });
    nodes.len() - 1
}

/// A page whose body holds `before` element children ahead of a form, and
/// returns the page with the index of that form.
fn page_with_form(before: usize) -> (Vec<Node>, usize) {
    let mut nodes = Vec::new();
    let html = element(&mut nodes, None, "html");
    let body = element(&mut nodes, Some(html), "body");
    for i in 0..before {
        text(&mut nodes, body);
        let tag = if i % 2 == 0 { "div" } else { "form" };
        element(&mut nodes, Some(body), tag);
    }
    text(&mut nodes, body);
    let form = element(&mut nodes, Some(body), "form");
    (nodes, form)
}

fn urls(files: &[File]) -> Vec<String> {
    files.iter().map(|f| f.url.clone()).collect()
}

#[test]
fn every_board_has_a_non_empty_segment() {
    for board in ALL_BOARDS.iter() {
        assert!(!board.as_str().is_empty());
        assert_eq!(board.to_string(), board.as_str().to_string());
    }
}

#[test]
fn board_segments_match_the_site() {
    assert_eq!(Board::Soy.as_str(), "soy");
    assert_eq!(Board::Politics.as_str(), "pol");
    assert_eq!(Board::Technology.as_str(), "tech");
    assert_eq!(Board::Nonsense.as_str(), "yyyyyyy");
    assert_eq!(Board::Gigachads.as_str(), "giga5");
    assert_eq!(Board::Archive.as_str(), "chive");
}

#[test]
fn viewer_link_is_rewritten_to_the_resource() {
    let f = File::new("https://soyjak.st/player.php?v=/img/abc.jpg&x=1".to_string());
    assert_eq!(f.url, "https://soyjak.st/img/abc.jpg");
}

#[test]
fn viewer_link_without_suffix_keeps_the_whole_value() {
    let f = File::new("https://soyjak.st/player.php?v=/soy/src/9.webm".to_string());
    assert_eq!(f.url, "https://soyjak.st/soy/src/9.webm");
}

#[test]
fn viewer_link_cut_at_the_first_ampersand() {
    let f = File::new("https://soyjak.st/player.php?v=/a.png&b=1&c=2".to_string());
    assert_eq!(f.url, "https://soyjak.st/a.png");
}

#[test]
fn other_links_pass_unchanged() {
    let u = "https://soyjak.st/soy/src/1234.png?x=1&y=2";
    assert_eq!(File::new(u.to_string()).url, u);
    let v = "https://site/player.php?v=/img/abc.jpg&x=1";
    assert_eq!(File::new(v.to_string()).url, v);
    assert_eq!(File::new(String::new()).url, "");
}

#[test]
fn file_name_is_the_last_path_segment() {
    let r = File::url_to_filename(&"https://site/board/src/1234.png".to_string());
    assert!(matches!(r, Ok(ref s) if s == "1234.png"));
    let f = File::new("https://soyjak.st/player.php?v=/img/abc.jpg&x=1".to_string());
    assert!(matches!(f.file_name(), Ok(ref s) if s == "abc.jpg"));
}

#[test]
fn file_name_ignores_the_query() {
    let r = File::url_to_filename(&"https://site/a/b.gif?size=2".to_string());
    assert!(matches!(r, Ok(ref s) if s == "b.gif"));
}

#[test]
fn url_without_path_segments_has_no_file_name() {
    let r = File::url_to_filename(&"https://site".to_string());
    assert!(matches!(r, Err(FileError::NoFileName)));
    let r = File::url_to_filename(&"https://site/dir/".to_string());
    assert!(matches!(r, Err(FileError::NoFileName)));
}

#[test]
fn unparsable_url_is_rejected() {
    let r = File::url_to_filename(&"not a url".to_string());
    assert!(matches!(r, Err(FileError::InvalidUrl)));
}

#[test]
fn file_name_from_path_takes_the_text_after_the_last_slash() {
    assert!(matches!(File::file_name_from_path("/a/b/c.png"), Ok(ref s) if s == "c.png"));
    assert!(matches!(File::file_name_from_path("/x"), Ok(ref s) if s == "x"));
    assert!(matches!(File::file_name_from_path("/"), Err(FileError::NoFileName)));
    assert!(matches!(File::file_name_from_path(""), Err(FileError::NoFileName)));
    assert!(matches!(File::file_name_from_path("a/b"), Err(FileError::NoFileName)));
}

#[test]
fn thread_url_is_built_from_board_and_id() {
    assert_eq!(
        Thread::url(Board::Technology, 12345),
        "https://soyjak.st/tech/thread/12345.html"
    );
    assert_eq!(Thread::url(Board::Soy, 0), "https://soyjak.st/soy/thread/0.html");
    assert_eq!(
        Thread::url(Board::R9K, u64::MAX),
        "https://soyjak.st/r9k/thread/18446744073709551615.html"
    );
}

#[test]
fn only_success_statuses_are_accepted() {
    assert!(Thread::check_status(200).is_ok());
    assert!(Thread::check_status(299).is_ok());
    assert!(matches!(Thread::check_status(404), Err(FetchError::Http(404))));
    assert!(matches!(Thread::check_status(199), Err(FetchError::Http(199))));
    assert!(matches!(Thread::check_status(300), Err(FetchError::Http(300))));
}

#[test]
fn image_links_in_the_container_are_extracted_in_order() {
    let (mut nodes, form) = page_with_form(12);
    // qualifying: link with an image child
    let a1 = link(&mut nodes, form, Some("/soy/src/1.png"));
    element(&mut nodes, Some(a1), "img");
    // not qualifying: link with text only
    let a2 = link(&mut nodes, form, Some("/soy/res/5.html"));
    text(&mut nodes, a2);
    // qualifying: nested deeper, viewer link, image after text
    let div = element(&mut nodes, Some(form), "div");
    let a3 = link(&mut nodes, div, Some("/player.php?v=/soy/src/2.webm&t=3"));
    text(&mut nodes, a3);
    element(&mut nodes, Some(a3), "img");
    // not qualifying: image is a grandchild
    let a4 = link(&mut nodes, div, Some("/x.png"));
    let span = element(&mut nodes, Some(a4), "span");
    element(&mut nodes, Some(span), "img");
    // qualifying: no href
    let a5 = link(&mut nodes, form, None);
    element(&mut nodes, Some(a5), "img");
    // outside the container
    let after = element(&mut nodes, Some(1), "div");
    let a6 = link(&mut nodes, after, Some("/outside.png"));
    element(&mut nodes, Some(a6), "img");

    let doc = Document { nodes };
    assert_eq!(doc.find_container(), Some(form));
    let files = doc.image_files();
    assert_eq!(
        urls(&files),
        vec![
            "https://soyjak.st/soy/src/1.png".to_string(),
            "https://soyjak.st/soy/src/2.webm".to_string(),
            "https://soyjak.st".to_string(),
        ]
    );
}

#[test]
fn repeated_links_are_kept() {
    let (mut nodes, form) = page_with_form(12);
    for _ in 0..2 {
        let a = link(&mut nodes, form, Some("/same.jpg"));
        element(&mut nodes, Some(a), "img");
    }
    let files = Document { nodes }.image_files();
    assert_eq!(urls(&files), vec!["https://soyjak.st/same.jpg".to_string(); 2]);
}

#[test]
fn page_without_container_gives_no_images() {
    let (mut nodes, form) = page_with_form(11);
    let a = link(&mut nodes, form, Some("/soy/src/1.png"));
    element(&mut nodes, Some(a), "img");
    let doc = Document { nodes };
    assert_eq!(doc.find_container(), None);
    assert!(doc.image_files().is_empty());
    assert!(Document { nodes: Vec::new() }.image_files().is_empty());
}

#[test]
fn container_must_be_a_form_under_body() {
    let (mut nodes, form) = page_with_form(12);
    nodes[form].tag = Some("div".to_string());
    let a = link(&mut nodes, form, Some("/1.png"));
    element(&mut nodes, Some(a), "img");
    assert_eq!(Document { nodes }.find_container(), None);
}

#[test]
fn thread_images_come_from_its_page() {
    let (mut nodes, form) = page_with_form(12);
    let a = link(&mut nodes, form, Some("/pol/src/7.jpg"));
    element(&mut nodes, Some(a), "img");
    let thread = Thread::from_document(Board::Politics, 7, Document { nodes });
    assert_eq!(urls(&thread.get_images()), vec!["https://soyjak.st/pol/src/7.jpg".to_string()]);
}

#[test]
fn progress_is_monotone_capped_and_complete() {
    let mut p = Progress::new(10);
    let mut seen = vec![p.position];
    for len in [3u64, 0, 4, 5] {
        p.advance(len);
        seen.push(p.position);
    }
    assert_eq!(seen, vec![0, 3, 3, 7, 10]);
    assert!(seen.windows(2).all(|w| w[0] <= w[1]));
    assert!(seen.iter().all(|&x| x <= 10));
    assert!(p.is_complete());
}

#[test]
fn progress_below_total_is_not_complete() {
    let mut p = Progress::new(100);
    p.advance(40);
    p.advance(59);
    assert_eq!(p.position, 99);
    assert!(!p.is_complete());
    p.advance(u64::MAX);
    assert_eq!(p.position, 100);
}

#[test]
fn download_needs_a_content_length() {
    let f = File::new("https://soyjak.st/soy/src/1.png".to_string());
    assert!(matches!(f.plan_download(None), Err(FileError::MissingContentLength)));
    let plan = f.plan_download(Some(42)).ok().unwrap();
    assert_eq!(plan.file_name, "1.png");
    assert_eq!(plan.progress, Progress::new(42));
    let g = File::new("https://soyjak.st/".to_string());
    assert!(matches!(g.plan_download(Some(1)), Err(FileError::NoFileName)));
}

#[test]
fn a_failed_file_does_not_stop_the_batch() {
    let outcomes = [true, false, true];
    let mut batch = Batch::new(outcomes.len());
    let mut tried = Vec::new();
    while let Some(i) = batch.next_file() {
        tried.push(i);
        batch.record(outcomes[i]);
    }
    assert_eq!(tried, vec![0, 1, 2]);
    assert!(batch.is_done());
    assert_eq!(batch.failed, vec![1]);
    assert!(!batch.all_succeeded());
}

#[test]
fn fetched_thread_is_archived_end_to_end() {
    let payloads: [&[u8]; 2] = [b"first image bytes", b"second"];
    let (mut nodes, form) = page_with_form(12);
    let a1 = link(&mut nodes, form, Some("/soy/src/100.png"));
    element(&mut nodes, Some(a1), "img");
    let a2 = link(&mut nodes, form, Some("/player.php?v=/soy/src/200.jpg&x=1"));
    element(&mut nodes, Some(a2), "img");
    let thread = Thread::from_document(Board::Soy, 99, Document { nodes });
    let files = thread.get_images();
    assert_eq!(
        urls(&files),
        vec![
            "https://soyjak.st/soy/src/100.png".to_string(),
            "https://soyjak.st/soy/src/200.jpg".to_string(),
        ]
    );

    let mut saved: Vec<(String, Vec<u8>)> = Vec::new();
    let mut batch = Batch::new(files.len());
    while let Some(i) = batch.next_file() {
        let payload = payloads[i];
        let mut plan = files[i].plan_download(Some(payload.len() as u64)).ok().unwrap();
        let mut written = Vec::new();
        for chunk in payload.chunks(4) {
            written.extend_from_slice(chunk);
            plan.progress.advance(chunk.len() as u64);
        }
        assert!(plan.progress.is_complete());
        saved.push((plan.file_name, written));
        batch.record(true);
    }
    assert!(batch.all_succeeded());
    assert_eq!(saved.len(), 2);
    assert_eq!(saved[0].0, "100.png");
    assert_eq!(saved[1].0, "200.jpg");
    assert_eq!(saved[0].1, payloads[0].to_vec());
    assert_eq!(saved[1].1, payloads[1].to_vec());
}
