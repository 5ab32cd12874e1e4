use linkstitcher::classify::{classify, content_kind, get_id_from_url, ContentKind, SourceKind};
use linkstitcher::enrich::{
    apply_arxiv, apply_bookmark, apply_html_fallback, apply_repo, apply_social, normalize_summary,
    tag_prompt, MAX_CHARS_SUMMARY,
};
use linkstitcher::arxiv::Arxiv;
use linkstitcher::preview::{Date, FeedChannel, FeedItem, Preview, PreviewError};
use linkstitcher::preview::into_previews;
use linkstitcher::store::Store;

fn bare(url: &str) -> Preview {
    Preview {
        url: url.to_string(),
        added_date: Date { days: 739000 },
        saved: false,
        embellished: false,
        bookmarked: false,
        source: None,
        title: None,
        published_date: None,
        tags: None,
        summary: None,
    }
}

#[test]
fn summary_falls_back_to_truncated_content() {
    let mut p = bare("https://a");
    let long: String = std::iter::repeat('x').take(MAX_CHARS_SUMMARY + 1).collect();
    normalize_summary(&mut p, Some(&long));
    let got = p.summary.unwrap();
    assert_eq!(got.chars().count(), MAX_CHARS_SUMMARY);
    assert!(long.starts_with(&got));
}

#[test]
fn summary_falls_back_to_title() {
    let mut p = bare("https://a");
    p.title = Some("A Title".to_string());
    normalize_summary(&mut p, None);
    assert_eq!(p.summary, Some("Title: A Title".to_string()));
}

#[test]
fn summary_kept_when_already_set() {
    let mut p = bare("https://a");
    p.summary = Some("existing".to_string());
    normalize_summary(&mut p, Some(&"content".to_string()));
    assert_eq!(p.summary, Some("existing".to_string()));
}

#[test]
fn summary_gets_source_prefix() {
    let mut p = bare("https://a");
    p.summary = Some("body".to_string());
    p.source = Some("Feed".to_string());
    normalize_summary(&mut p, None);
    assert_eq!(p.summary, Some("Source: Feed\n\nbody".to_string()));
}

#[test]
fn source_prefix_applied_exactly_once() {
    // Running the normalizer twice must not double the provenance header.
    let mut p = bare("https://a");
    p.summary = Some("body".to_string());
    p.source = Some("X".to_string());
    normalize_summary(&mut p, None);
    let once = p.summary.clone();
    normalize_summary(&mut p, None);
    assert_eq!(p.summary, once);
    assert_eq!(p.summary, Some("Source: X\n\nbody".to_string()));
}

#[test]
fn no_summary_without_any_fallback() {
    let mut p = bare("https://a");
    normalize_summary(&mut p, None);
    assert_eq!(p.summary, None);
}

fn sample_arxiv() -> Arxiv {
    let mut a = Arxiv::new();
    a.title = "Sample Title".to_string();
    a.published = "2024-01-01".to_string();
    a.summary = "An abstract.".to_string();
    a.category_names = vec![
        "Artificial Intelligence".to_string(),
        "Machine Learning".to_string(),
    ];
    a
}

#[test]
fn paper_merge_populates_preview() {
    let mut p = bare("https://arxiv.org/abs/1234.5678");
    let content = apply_arxiv(&mut p, &sample_arxiv());
    assert_eq!(content, "An abstract.");
    assert_eq!(p.title, Some("Sample Title".to_string()));
    assert_eq!(p.published_date, Some("2024-01-01".to_string()));
    assert_eq!(p.source, Some("ArXiv".to_string()));
    assert_eq!(
        p.tags,
        Some("Artificial Intelligence, Machine Learning".to_string())
    );
    assert_eq!(p.summary, Some("An abstract.".to_string()));
}

#[test]
fn paper_merge_keeps_existing_source() {
    let mut p = bare("https://arxiv.org/abs/1234.5678");
    p.source = Some("Hacker News".to_string());
    apply_arxiv(&mut p, &sample_arxiv());
    assert_eq!(p.source, Some("Hacker News".to_string()));
}

#[test]
fn paper_merge_without_categories_leaves_tags_absent() {
    let mut p = bare("https://arxiv.org/abs/1234.5678");
    let mut a = sample_arxiv();
    a.category_names = vec![];
    apply_arxiv(&mut p, &a);
    assert_eq!(p.tags, None);
}

#[test]
fn paper_ingestion_end_to_end() {
    // A paper URL with no prior store entry: classify, extract, normalize,
    // persist.
    let url = "https://arxiv.org/abs/1234.5678";
    assert_eq!(classify(url), SourceKind::Paper);
    assert_eq!(get_id_from_url(url), Some("1234.5678".to_string()));

    let mut p = bare(url);
    let content = apply_arxiv(&mut p, &sample_arxiv());
    normalize_summary(&mut p, Some(&content));
    assert_eq!(p.summary, Some("Source: ArXiv\n\nAn abstract.".to_string()));

    let mut store = Store::new();
    assert!(!store.is_url_known(url));
    store.insert_or_update_preview(&p);
    let stored = store.get_preview(url).unwrap();
    assert!(!stored.embellished);
    assert_eq!(stored.title, Some("Sample Title".to_string()));
    assert_eq!(store.get_all_previews().len(), 1);
}

#[test]
fn html_fallback_end_to_end() {
    // A generic HTML URL whose readability extraction fails: the URL itself
    // becomes the title, the summary falls back to it, and the source
    // prefix still applies.
    let url = "https://example.com/article";
    assert_eq!(classify(url), SourceKind::GenericDocument);
    assert_eq!(
        content_kind(Some("text/html; charset=utf-8")),
        ContentKind::Html
    );

    let mut p = bare(url);
    p.source = Some("Feed".to_string());
    apply_html_fallback(&mut p);
    assert_eq!(p.title, Some(url.to_string()));

    normalize_summary(&mut p, None);
    assert_eq!(
        p.summary,
        Some(format!("Source: Feed\n\nTitle: {url}"))
    );
}

#[test]
fn social_fragment_becomes_summary() {
    let mut p = bare("https://x.com/someone/status/1");
    let content = apply_social(&mut p, "<p>hello</p>");
    assert_eq!(content, " hello");
    assert_eq!(p.summary, Some(" hello".to_string()));
}

#[test]
fn readme_becomes_summary() {
    let mut p = bare("https://github.com/owner/repo");
    let content = apply_repo(&mut p, Some("readme text".to_string()));
    assert_eq!(content, Some("readme text".to_string()));
    assert_eq!(p.summary, Some("readme text".to_string()));

    let mut q = bare("https://github.com/owner/repo");
    assert_eq!(apply_repo(&mut q, None), None);
    assert_eq!(q.summary, None);
}

#[test]
fn tag_prompt_needs_title_and_summary_and_no_tags() {
    let mut p = bare("https://a");
    assert_eq!(tag_prompt(&p), None);
    p.title = Some("T".to_string());
    p.summary = Some("S".to_string());
    assert_eq!(
        tag_prompt(&p),
        Some("Consider the following content:\n\nTitle: T\n\nText:\n\nS...\n\nWrite a comma-separated list of categorizational tags for the above content. Respond ONLY with the comma-separated list".to_string())
    );
    p.tags = Some("done".to_string());
    assert_eq!(tag_prompt(&p), None);
}

#[test]
fn bookmark_stores_response_and_sets_flag() {
    let mut p = bare("https://a");
    apply_bookmark(&mut p, Some("t1, t2".to_string()));
    assert!(p.bookmarked);
    assert_eq!(p.tags, Some("t1, t2".to_string()));
}

#[test]
fn bookmark_sets_flag_even_without_tags() {
    let mut p = bare("https://a");
    apply_bookmark(&mut p, None);
    assert!(p.bookmarked);
    assert_eq!(p.tags, None);

    let mut q = bare("https://a");
    q.tags = Some("kept".to_string());
    apply_bookmark(&mut q, Some("ignored".to_string()));
    assert_eq!(q.tags, Some("kept".to_string()));
}

#[test]
fn feed_items_become_previews() {
    let channel = FeedChannel {
        title: "  Hacker News  ".to_string(),
        items: vec![
            FeedItem {
                link: Some("https://a".to_string()),
                title: Some("First".to_string()),
                pub_date: Some("2024-01-01".to_string()),
                categories: vec!["x".to_string(), "y".to_string()],
                description: Some("d".to_string()),
            },
            FeedItem {
                link: Some("https://b".to_string()),
                title: None,
                pub_date: None,
                categories: vec![],
                description: None,
            },
        ],
    };
    let previews = into_previews(&channel).unwrap();
    assert_eq!(previews.len(), 2);
    assert_eq!(previews[0].url, "https://a");
    assert_eq!(previews[0].source, Some("Hacker News".to_string()));
    assert_eq!(previews[0].tags, Some("x, y".to_string()));
    assert_eq!(previews[0].summary, Some("d".to_string()));
    assert_eq!(previews[1].tags, None);
    assert!(!previews[1].saved && !previews[1].embellished && !previews[1].bookmarked);
}

#[test]
fn feed_item_without_link_is_rejected() {
    let channel = FeedChannel {
        title: "Feed".to_string(),
        items: vec![FeedItem {
            link: None,
            title: Some("t".to_string()),
            pub_date: None,
            categories: vec![],
            description: None,
        }],
    };
    assert_eq!(into_previews(&channel), Err(PreviewError::MissingLink));
}

#[test]
fn tags_are_split_and_trimmed() {
    let mut p = bare("https://a");
    assert_eq!(p.tags(), None);
    p.tags = Some(" a , b,c ".to_string());
    assert_eq!(
        p.tags(),
        Some(vec!["a".to_string(), "b".to_string(), "c".to_string()])
    );
}
