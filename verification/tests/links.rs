use dumbgram::links::{first_url, link_at_display_column, links_in_text, trim_url_end};
use dumbgram::mouse_events::{link_in_wrapped_line_at_column, wrap_display_line_ranges};

#[test]
fn links_in_text_finds_http_and_https_urls() {
    let links = links_in_text("see http://example.com and https://example.org/a?q=1");

    assert_eq!(links.len(), 2);
    assert_eq!(links[0].url, "http://example.com");
    assert_eq!(links[1].url, "https://example.org/a?q=1");
}

#[test]
fn links_in_text_trims_common_sentence_punctuation() {
    assert_eq!(
        first_url("Open (https://example.org/path)."),
        Some("https://example.org/path".to_string())
    );
}

#[test]
fn link_at_display_column_accounts_for_wide_prefix_text() {
    let text = "好 https://example.org";

    assert_eq!(link_at_display_column(text, 1), None);
    assert_eq!(link_at_display_column(text, 3), Some("https://example.org".to_string()));
}

#[test]
fn links_report_character_ranges_and_stop_at_whitespace() {
    let links = links_in_text("go https://a.example/x\tthen http://b.example");
    assert_eq!(links.len(), 2);
    assert_eq!((links[0].start, links[0].end), (3, 22));
    assert_eq!(links[1].url, "http://b.example");
}

#[test]
fn text_without_scheme_has_no_links() {
    assert!(links_in_text("example.com and ftp://x").is_empty());
    assert_eq!(first_url(""), None);
    assert_eq!(first_url("https://"), Some("https://".to_string()));
}

#[test]
fn trailing_punctuation_is_trimmed_but_not_past_the_start() {
    let text: Vec<char> = "x https://e.org/?!)\"".chars().collect();
    assert_eq!(trim_url_end(&text, 2, text.len()), 16);
    let dots: Vec<char> = "...".chars().collect();
    assert_eq!(trim_url_end(&dots, 0, 3), 0);
}

#[test]
fn wrapping_breaks_at_width_and_newlines() {
    let lines = wrap_display_line_ranges("abcdef\ngh", 4, 3, 10);
    let lines: Vec<(usize, &str)> = lines.iter().map(|(s, l)| (*s, l.as_str())).collect();
    assert_eq!(lines, vec![(0, "abcd"), (4, "ef"), (7, "gh")]);
}

#[test]
fn wrapping_stops_after_the_line_limit() {
    assert!(wrap_display_line_ranges("abc", 2, 2, 0).is_empty());
    let lines = wrap_display_line_ranges("abcdefgh", 2, 2, 2);
    let lines: Vec<&str> = lines.iter().map(|(_, l)| l.as_str()).collect();
    assert_eq!(lines, vec!["ab", "cd"]);
}

#[test]
fn wrapping_gives_wide_characters_whole_columns() {
    let lines = wrap_display_line_ranges("好好好", 3, 3, 10);
    let lines: Vec<(usize, &str)> = lines.iter().map(|(s, l)| (*s, l.as_str())).collect();
    assert_eq!(lines, vec![(0, "好"), (1, "好"), (2, "好")]);
}

#[test]
fn zero_widths_wrap_one_character_per_line() {
    let lines = wrap_display_line_ranges("ab", 0, 0, 10);
    let lines: Vec<&str> = lines.iter().map(|(_, l)| l.as_str()).collect();
    assert_eq!(lines, vec!["a", "b"]);
}

#[test]
fn wrapped_link_continuation_is_found_on_its_own_line() {
    let text = "see https://example.org/long";
    let lines = wrap_display_line_ranges(text, 12, 12, 5);
    assert_eq!(lines[0].1, "see https://");
    let (start, line) = &lines[1];
    let end = start + line.chars().count();
    assert_eq!(
        link_in_wrapped_line_at_column(text, *start, end, 2),
        Some("https://example.org/long".to_string())
    );
    assert_eq!(link_in_wrapped_line_at_column(text, 0, 12, 1), None);
    assert_eq!(
        link_in_wrapped_line_at_column(text, 0, 12, 4),
        Some("https://example.org/long".to_string())
    );
}

#[test]
fn wrapping_stops_at_the_line_limit_with_a_prefix_of_the_text() {
    let lines = wrap_display_line_ranges("ab\ncd ef", 3, 3, 2);
    assert_eq!(lines, vec![(0, "ab".to_string()), (3, "cd ".to_string())]);
    let all = wrap_display_line_ranges("ab\ncd ef", 3, 3, 5);
    assert_eq!(all, vec![(0, "ab".to_string()), (3, "cd ".to_string()), (6, "ef".to_string())]);
    let joined: String = all.iter().map(|(_, line)| line.as_str()).collect();
    assert_eq!(joined, "abcd ef");
}

#[test]
fn every_link_start_is_found_after_an_earlier_link() {
    let links = dumbgram::links::links_in_text("see http://a.example,https://b.example now");
    let urls: Vec<&str> = links.iter().map(|l| l.url.as_str()).collect();
    assert_eq!(urls, vec!["http://a.example,https://b.example"]);
    let links = dumbgram::links::links_in_text("http://a.example https://b.example.");
    let urls: Vec<&str> = links.iter().map(|l| l.url.as_str()).collect();
    assert_eq!(urls, vec!["http://a.example", "https://b.example"]);
}
