use linkstitcher::ai::gemini_outcome;
use linkstitcher::filter::{check_response, CheckOutcome, SmartFilter};
use linkstitcher::preview::{Date, Preview};
use linkstitcher::text::indent;

fn bare_preview(summary: Option<&str>) -> Preview {
    Preview {
        url: "https://example.com".to_string(),
        added_date: Date { days: 739000 },
        saved: false,
        embellished: false,
        bookmarked: false,
        source: None,
        title: None,
        published_date: None,
        tags: None,
        summary: summary.map(|s| s.to_string()),
    }
}

#[test]
fn check_rejects_missing_summary() {
    // No summary means rejection, whatever is configured.
    let mut filter = SmartFilter::new();
    filter.add_keywords(vec!["rust".to_string()]);
    let preview = bare_preview(None);
    assert_eq!(filter.check(&preview), CheckOutcome::Reject);

    let empty = SmartFilter::new();
    assert_eq!(empty.check(&preview), CheckOutcome::Reject);
}

#[test]
fn keyword_match_is_case_sensitive() {
    let preview = bare_preview(Some("I love Rust"));

    let mut lower = SmartFilter::new();
    lower.add_keywords(vec!["rust".to_string()]);
    assert_eq!(lower.check(&preview), CheckOutcome::Reject);

    let mut upper = SmartFilter::new();
    upper.add_keywords(vec!["Rust".to_string()]);
    assert_eq!(upper.check(&preview), CheckOutcome::Accept);
}

#[test]
fn empty_topics_skip_topic_phase() {
    // A passing keyword phase with no topics configured accepts outright,
    // with no external call.
    let mut filter = SmartFilter::new();
    filter.add_keywords(vec!["spoon".to_string(), "Rust".to_string()]);
    let preview = bare_preview(Some("I love Rust"));
    assert_eq!(filter.check(&preview), CheckOutcome::Accept);
}

#[test]
fn empty_keywords_pass_trivially() {
    let filter = SmartFilter::new();
    let preview = bare_preview(Some("anything at all"));
    assert_eq!(filter.check(&preview), CheckOutcome::Accept);
}

#[test]
fn topics_defer_to_service() {
    let mut filter = SmartFilter::new();
    filter.add_topics(vec!["types".to_string()]);
    let preview = bare_preview(Some("a passage"));
    assert_eq!(filter.check(&preview), CheckOutcome::AskTopics);
}

#[test]
fn response_passes_on_yes_substrings() {
    assert!(check_response("yes"));
    assert!(check_response("Yes, it is related."));
    assert!(check_response("eyes on this"));
    assert!(!check_response("no"));
    assert!(!check_response("YES"));
}

#[test]
fn topic_prompt_embeds_topics_and_indented_summary() {
    let mut filter = SmartFilter::new();
    filter.add_topics(vec!["types".to_string(), "logic".to_string()]);
    let prompt = filter.topic_prompt("line one\nline two");
    assert_eq!(
        prompt,
        "Consider the following passage:\n\n    line one\n    line two\n\nYour task is to decide if the above passage is related to any of the following topics: types, logic. Respond with yes or no."
    );
}

#[test]
fn add_keywords_and_topics_stay_separate() {
    let mut filter = SmartFilter::new();
    filter.add_keywords(vec!["a".to_string()]);
    filter.add_topics(vec!["b".to_string()]);
    filter.add_keywords(vec!["c".to_string()]);
    assert_eq!(filter.keywords, vec!["a".to_string(), "c".to_string()]);
    assert_eq!(filter.topics, vec!["b".to_string()]);
}

#[test]
fn indent_prefixes_every_line() {
    assert_eq!(indent("a\nb"), "    a\n    b");
    assert_eq!(indent(""), "    ");
}

#[test]
fn gemini_outcome_flags_error_markers() {
    let err = gemini_outcome("output".to_string(), "some Error occurred").unwrap_err();
    assert_eq!(err.stderr, "some Error occurred");
    assert!(gemini_outcome("output".to_string(), "an error happened").is_err());
}

#[test]
fn gemini_outcome_passes_clean_output() {
    assert_eq!(
        gemini_outcome("the tags".to_string(), "all fine").unwrap(),
        "the tags"
    );
}
