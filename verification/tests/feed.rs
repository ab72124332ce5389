use rsspls::assemble::{assemble, generator_tag, render_feed};
use rsspls::error::SourceError;
use rsspls::orchestrate::{overall_success, process_response, status_is_success, status_text};
use rsspls::rule::{ExtractedItem, SourceRule};

fn item(title: &str, link: &str, summary: Option<&str>, date: Option<&str>) -> ExtractedItem {
    ExtractedItem {
        title_text: title.to_string(),
        link: link.to_string(),
        summary_text: summary.map(|s| s.to_string()),
        date_text: date.map(|s| s.to_string()),
    }
}

fn sample_items() -> Vec<ExtractedItem> {
    vec![
        item("First", "https://example.com/p/1", Some("sum one"), Some("Mon, 01 Jan 2024")),
        item("Second", "https://example.com/p/2", None, None),
    ]
}

fn example_rule() -> SourceRule {
    SourceRule {
        title: "Example".to_string(),
        url: "https://example.com/blog/".to_string(),
        item_selector: "li.post".to_string(),
        heading_selector: "a.title".to_string(),
        summary_selector: None,
        date_selector: None,
    }
}

const THREE_POSTS: &str = r#"<html><body><ul>
    <li class="post"><a class="title" href="/p/1">Text</a></li>
    <li class="post"><a class="title" href="/p/2">Text</a></li>
    <li class="post"><a class="title" href="/p/3">Text</a></li>
</ul></body></html>"#;

#[test]
fn assemble_keeps_title_order_and_generator() {
    let feed = assemble("My Feed", sample_items());
    assert_eq!(feed.title, "My Feed");
    assert_eq!(feed.generator, "RSS Please");
    assert_eq!(feed.generator, generator_tag());
    assert_eq!(feed.entries.len(), 2);
    assert_eq!(feed.entries[0].title_text, "First");
    assert_eq!(feed.entries[1].title_text, "Second");
}

#[test]
fn assembler_is_pure_byte_identical_output() {
    let once = render_feed(&assemble("My Feed", sample_items()));
    let twice = render_feed(&assemble("My Feed", sample_items()));
    assert_eq!(once, twice);
}

#[test]
fn empty_item_sequence_yields_a_valid_empty_feed() {
    let feed = assemble("Empty", Vec::new());
    assert_eq!(feed.entries.len(), 0);
    let bytes = render_feed(&feed);
    let channel = rss::Channel::read_from(&bytes[..]).unwrap();
    assert_eq!(channel.title(), "Empty");
    assert_eq!(channel.items().len(), 0);
}

#[test]
fn rendered_feed_carries_entries_verbatim() {
    let bytes = render_feed(&assemble("My Feed", sample_items()));
    let channel = rss::Channel::read_from(&bytes[..]).unwrap();
    assert_eq!(channel.title(), "My Feed");
    assert_eq!(channel.generator(), Some("RSS Please"));
    let items = channel.items();
    assert_eq!(items.len(), 2);
    assert_eq!(items[0].title(), Some("First"));
    assert_eq!(items[0].link(), Some("https://example.com/p/1"));
    assert_eq!(items[0].content(), Some("sum one"));
    assert_eq!(items[0].pub_date(), Some("Mon, 01 Jan 2024"));
    assert_eq!(items[1].title(), Some("Second"));
    assert_eq!(items[1].link(), Some("https://example.com/p/2"));
    assert_eq!(items[1].content(), None);
    assert_eq!(items[1].pub_date(), None);
}

#[test]
fn full_scenario_three_posts_three_entries() {
    let bytes = process_response(&example_rule(), 200, THREE_POSTS).unwrap();
    let channel = rss::Channel::read_from(&bytes[..]).unwrap();
    assert_eq!(channel.title(), "Example");
    let items = channel.items();
    assert_eq!(items.len(), 3);
    for (i, entry) in items.iter().enumerate() {
        assert_eq!(entry.title(), Some("Text"));
        assert_eq!(entry.link().unwrap(), format!("https://example.com/p/{}", i + 1));
    }
}

#[test]
fn http_failure_fails_the_source_but_not_its_siblings() {
    let failing = process_response(&example_rule(), 404, THREE_POSTS);
    assert!(matches!(failing, Err(SourceError::Http { status: 404 })));

    let succeeding = process_response(&example_rule(), 200, THREE_POSTS);
    assert!(succeeding.is_ok());

    let outcomes = vec![failing.is_ok(), succeeding.is_ok()];
    assert!(!overall_success(&outcomes));
    assert!(overall_success(&vec![true, true]));
    assert!(overall_success(&Vec::new()));
}

#[test]
fn missing_heading_fails_that_source_alone() {
    let broken = r#"<html><body><ul>
        <li class="post"><a class="title" href="/p/1">Text</a></li>
        <li class="post"><span>bare</span></li>
    </ul></body></html>"#;
    let failing = process_response(&example_rule(), 200, broken);
    assert!(matches!(
        failing,
        Err(SourceError::Extract { error: rsspls::error::ExtractionError::MissingHeading })
    ));
    let sibling = process_response(&example_rule(), 200, THREE_POSTS);
    assert!(sibling.is_ok());
    assert!(!overall_success(&vec![failing.is_ok(), sibling.is_ok()]));
}

#[test]
fn status_success_range_is_exactly_2xx() {
    assert!(!status_is_success(199));
    assert!(status_is_success(200));
    assert!(status_is_success(299));
    assert!(!status_is_success(300));
    assert!(!status_is_success(404));
    assert!(!status_is_success(500));
}

#[test]
fn status_text_names_the_common_codes() {
    assert_eq!(status_text(200), "OK");
    assert_eq!(status_text(404), "Not Found");
    assert_eq!(status_text(503), "Service Unavailable");
    assert_eq!(status_text(418), "Unknown Status");
}

#[test]
fn iso_dates_are_normalized_in_the_rendered_feed() {
    let mut r = example_rule();
    r.date_selector = Some("time.when".to_string());
    let html = r#"<html><body><ul>
        <li class="post"><a class="title" href="/p/1">Text</a>
            <time class="when">2024-05-01</time></li>
    </ul></body></html>"#;
    let bytes = process_response(&r, 200, html).unwrap();
    let channel = rss::Channel::read_from(&bytes[..]).unwrap();
    assert_eq!(channel.items()[0].pub_date(), Some("01 May 2024 00:00:00 GMT"));
}
