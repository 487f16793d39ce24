use br::event::Event;
use br::feed::{document_events, entry_event, entry_events, ParsedEntry};

fn parse(body: &[u8]) -> Result<Vec<ParsedEntry>, String> {
    match feed_rs::parser::parse(body) {
        Ok(feed) => Ok(feed
            .entries
            .into_iter()
            .map(|e| ParsedEntry {
                title: e.title.map(|t| t.content),
                links: e.links.into_iter().map(|l| l.href).collect(),
                published: e.published.map(|d| d.timestamp()),
                updated: e.updated.map(|d| d.timestamp()),
            })
            .collect()),
        Err(e) => Err(e.to_string()),
    }
}

fn feed_events(source_name: &str, body: &[u8]) -> Vec<Event> {
    document_events(source_name, &parse(body))
}

fn rss_with_items(count: usize) -> String {
    let mut xml = String::from(
        "<?xml version=\"1.0\" encoding=\"UTF-8\"?><rss version=\"2.0\"><channel>\
         <title>Sample</title><link>https://example.org/</link><description>d</description>",
    );
    for i in 1..=count {
        xml.push_str(&format!(
            "<item><title>Post {}</title><link>https://example.org/{}</link>\
             <pubDate>0{} Jan 2025 10:00:00 GMT</pubDate></item>",
            i,
            i,
            (i % 9) + 1
        ));
    }
    xml.push_str("</channel></rss>");
    xml
}

fn entry(title: Option<&str>, links: &[&str], published: Option<i64>, updated: Option<i64>) -> ParsedEntry {
    ParsedEntry {
        title: title.map(|t| t.to_string()),
        links: links.iter().map(|l| l.to_string()).collect(),
        published,
        updated,
    }
}

#[test]
fn seven_entries_give_five_items_in_document_order() {
    let events = feed_events("Sample", rss_with_items(7).as_bytes());
    assert_eq!(events.len(), 5);
    for (i, event) in events.iter().enumerate() {
        match event {
            Event::NewItem { source_name, title, link, published_at } => {
                assert_eq!(source_name, "Sample");
                assert_eq!(title, &format!("Post {}", i + 1));
                assert_eq!(link, &format!("https://example.org/{}", i + 1));
                assert!(published_at.is_some());
            }
            other => panic!("expected an item, got {:?}", other),
        }
    }
}

#[test]
fn fewer_than_five_entries_are_all_reported() {
    let events = feed_events("Sample", rss_with_items(3).as_bytes());
    assert_eq!(events.len(), 3);
    let events = feed_events("Sample", rss_with_items(0).as_bytes());
    assert!(events.is_empty());
}

#[test]
fn rss_publication_date_is_read() {
    let events = feed_events("Sample", rss_with_items(1).as_bytes());
    // Post 1 is dated 02 Jan 2025 10:00:00 GMT.
    assert_eq!(
        events,
        vec![Event::NewItem {
            source_name: "Sample".to_string(),
            title: "Post 1".to_string(),
            link: "https://example.org/1".to_string(),
            published_at: Some(1735776000 + 10 * 3600),
        }]
    );
}

#[test]
fn atom_entry_falls_back_to_its_update_date() {
    let xml = "<?xml version=\"1.0\" encoding=\"utf-8\"?>\
        <feed xmlns=\"http://www.w3.org/2005/Atom\"><title>A</title><id>urn:a</id>\
        <updated>2025-01-03T00:00:00Z</updated>\
        <entry><title>Only updated</title><id>urn:1</id>\
        <link href=\"https://example.org/u\"/><updated>2025-01-03T00:00:00Z</updated></entry>\
        <entry><title>Both</title><id>urn:2</id>\
        <link href=\"https://example.org/b\"/><updated>2025-01-03T00:00:00Z</updated>\
        <published>2024-12-25T00:00:00Z</published></entry>\
        </feed>";
    let events = feed_events("Atom", xml.as_bytes());
    assert_eq!(
        events,
        vec![
            Event::NewItem {
                source_name: "Atom".to_string(),
                title: "Only updated".to_string(),
                link: "https://example.org/u".to_string(),
                published_at: Some(1735862400),
            },
            Event::NewItem {
                source_name: "Atom".to_string(),
                title: "Both".to_string(),
                link: "https://example.org/b".to_string(),
                published_at: Some(1735084800),
            },
        ]
    );
}

#[test]
fn entry_without_title_link_or_date() {
    let xml = "<?xml version=\"1.0\"?><rss version=\"2.0\"><channel><title>S</title>\
        <item><description>nothing else</description></item></channel></rss>";
    let events = feed_events("Bare", xml.as_bytes());
    assert_eq!(
        events,
        vec![Event::NewItem {
            source_name: "Bare".to_string(),
            title: "No Title".to_string(),
            link: String::new(),
            published_at: None,
        }]
    );
}

#[test]
fn unparsable_document_gives_one_error() {
    let events = feed_events("Broken", b"this is not a feed");
    assert_eq!(events.len(), 1);
    match &events[0] {
        Event::Error { message } => {
            assert!(message.starts_with("[ERROR] parsing feed for Broken: "));
            assert!(message.len() > "[ERROR] parsing feed for Broken: ".len());
        }
        other => panic!("expected an error, got {:?}", other),
    }
}

#[test]
fn parse_error_text_is_carried_into_the_message() {
    let events = document_events("Blog", &Err("no root element".to_string()));
    assert_eq!(
        events,
        vec![Event::Error { message: "[ERROR] parsing feed for Blog: no root element".to_string() }]
    );
}

#[test]
fn parsed_document_gives_its_entries() {
    let entries = vec![entry(Some("One"), &["https://a/1"], Some(5), None)];
    let events = document_events("Blog", &Ok(entries));
    assert_eq!(
        events,
        vec![Event::NewItem {
            source_name: "Blog".to_string(),
            title: "One".to_string(),
            link: "https://a/1".to_string(),
            published_at: Some(5),
        }]
    );
}

#[test]
fn entry_event_takes_the_first_link() {
    let e = entry(Some("T"), &["https://first", "https://second"], Some(10), Some(20));
    assert_eq!(
        entry_event("Blog", &e),
        Event::NewItem {
            source_name: "Blog".to_string(),
            title: "T".to_string(),
            link: "https://first".to_string(),
            published_at: Some(10),
        }
    );
}

#[test]
fn entry_event_fills_in_what_is_missing() {
    let e = entry(None, &[], None, Some(20));
    assert_eq!(
        entry_event("Blog", &e),
        Event::NewItem {
            source_name: "Blog".to_string(),
            title: "No Title".to_string(),
            link: String::new(),
            published_at: Some(20),
        }
    );
    let e = entry(None, &[], None, None);
    match entry_event("Blog", &e) {
        Event::NewItem { published_at, .. } => assert_eq!(published_at, None),
        other => panic!("expected an item, got {:?}", other),
    }
}

#[test]
fn entry_events_stop_after_five() {
    let entries: Vec<ParsedEntry> =
        (0..9).map(|i| entry(Some(&format!("T{}", i)), &[&format!("l{}", i)], None, None)).collect();
    let events = entry_events("Blog", &entries);
    assert_eq!(events.len(), 5);
    for (i, event) in events.iter().enumerate() {
        assert_eq!(event, &entry_event("Blog", &entries[i]));
    }
    let events = entry_events("Blog", &entries[..5].to_vec());
    assert_eq!(events.len(), 5);
    let events = entry_events("Blog", &entries[..4].to_vec());
    assert_eq!(events.len(), 4);
    let events = entry_events("Blog", &Vec::new());
    assert!(events.is_empty());
}
