use corpus_sourcing::scraping::ViaScraper;

fn scraper_with(initial: Option<&str>, terminal: Option<&str>) -> ViaScraper {
    let mut s = ViaScraper::default();
    s.title = String::from("A Title");
    s.initial_marker = initial.map(String::from);
    s.terminal_marker = terminal.map(String::from);
    s
}

#[test]
fn truncation_cuts_between_the_last_marker_occurrences() {
    let s = scraper_with(Some("AAA"), Some("BBB"));
    let text = String::from("prefix AAA middle BBB suffix");
    let cut = s.apply_truncation(&text).unwrap();
    assert_eq!(cut, "AAA middle ");
}

#[test]
fn truncation_uses_the_last_occurrence_of_each_marker() {
    let s = scraper_with(Some("AAA"), Some("BBB"));
    let text = String::from("xAAAyAAAzBBBwBBB");
    let cut = s.apply_truncation(&text).unwrap();
    assert_eq!(cut, "AAAzBBBw");
}

#[test]
fn a_single_marker_keeps_the_full_text_and_is_reported() {
    let s = scraper_with(Some("AAA"), None);
    let text = String::from("prefix AAA middle BBB suffix");
    assert!(!s.needs_truncation());
    assert!(s.has_partial_markers());
    let kept = s.apply_truncation(&text).unwrap();
    assert_eq!(kept, text);

    let s = scraper_with(None, Some("BBB"));
    assert!(!s.needs_truncation());
    assert!(s.has_partial_markers());
    let kept = s.apply_truncation(&text).unwrap();
    assert_eq!(kept, text);
}

#[test]
fn no_markers_keeps_the_full_text_without_a_report() {
    let s = scraper_with(None, None);
    let text = String::from("anything at all");
    assert!(!s.needs_truncation());
    assert!(!s.has_partial_markers());
    let kept = s.apply_truncation(&text).unwrap();
    assert_eq!(kept, text);
}

#[test]
fn markers_absent_from_the_text_reject_truncation() {
    let s = scraper_with(Some("AAA"), Some("BBB"));
    assert!(s.needs_truncation());
    let text = String::from("no markers here");
    assert!(s.apply_truncation(&text).is_none());
}

#[test]
fn markers_out_of_order_reject_truncation() {
    let s = scraper_with(Some("AAA"), Some("BBB"));
    let text = String::from("BBB then AAA");
    assert!(s.apply_truncation(&text).is_none());
}

#[test]
fn scrape_joins_paragraphs_with_newlines() {
    let s = ViaScraper::default();
    let html = String::from("<html><body><p>One</p><div>skip</div><p>Two</p></body></html>");
    assert_eq!(s.scrape(&html), "One\nTwo\n");
}

#[test]
fn scrape_concatenates_nested_text() {
    let s = ViaScraper::default();
    let html = String::from("<p>a<b>c</b>d</p>");
    assert_eq!(s.scrape(&html), "acd\n");
}

#[test]
fn scrape_of_a_page_without_paragraphs_is_empty() {
    let s = ViaScraper::default();
    let html = String::from("<html><body><div>nothing</div></body></html>");
    assert_eq!(s.scrape(&html), "");
}
