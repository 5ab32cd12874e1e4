use linkstitcher::classify::{
    classify, content_kind, get_id_from_url, repo_owner_name, ContentKind, ExtractError,
    SourceKind,
};

#[test]
fn classify_paper_pdf_path() {
    assert_eq!(
        classify("https://arxiv.org/pdf/1234.5678.pdf"),
        SourceKind::Paper
    );
}

#[test]
fn classify_paper_abstract_path() {
    assert_eq!(classify("https://arxiv.org/abs/1234.5678"), SourceKind::Paper);
}

#[test]
fn classify_paper_html_path() {
    assert_eq!(
        classify("https://arxiv.org/html/1234.5678v2"),
        SourceKind::Paper
    );
}

#[test]
fn classify_social_host() {
    assert_eq!(
        classify("https://x.com/someone/status/42"),
        SourceKind::SocialPost
    );
}

#[test]
fn classify_repository_host() {
    assert_eq!(
        classify("https://github.com/owner/repo"),
        SourceKind::Repository
    );
}

#[test]
fn classify_generic_fallback() {
    assert_eq!(
        classify("https://example.com/article"),
        SourceKind::GenericDocument
    );
    assert_eq!(classify("not a url at all"), SourceKind::GenericDocument);
}

#[test]
fn classify_paper_path_never_generic() {
    // Rule order: every paper-path URL lands on Paper, never on a later rule.
    for url in [
        "https://arxiv.org/pdf/0000.0001",
        "https://arxiv.org/abs/0000.0001",
        "https://arxiv.org/html/0000.0001",
    ] {
        assert_eq!(classify(url), SourceKind::Paper);
    }
}

#[test]
fn paper_id_from_pdf_path_strips_suffix() {
    assert_eq!(
        get_id_from_url("https://arxiv.org/pdf/1234.5678.pdf"),
        Some("1234.5678".to_string())
    );
}

#[test]
fn paper_id_from_pdf_path_without_suffix() {
    assert_eq!(
        get_id_from_url("https://arxiv.org/pdf/1234.5678"),
        Some("1234.5678".to_string())
    );
}

#[test]
fn paper_id_from_abstract_path() {
    assert_eq!(
        get_id_from_url("https://arxiv.org/abs/1234.5678"),
        Some("1234.5678".to_string())
    );
}

#[test]
fn paper_id_from_html_path() {
    assert_eq!(
        get_id_from_url("https://arxiv.org/html/1234.5678v1"),
        Some("1234.5678v1".to_string())
    );
}

#[test]
fn paper_id_absent_elsewhere() {
    assert_eq!(get_id_from_url("https://example.com/abs/1234"), None);
}

#[test]
fn repo_owner_name_from_url() {
    let (owner, name) = repo_owner_name("https://github.com/rybla/linkstitcher").unwrap();
    assert_eq!(owner, "rybla");
    assert_eq!(name, "linkstitcher");
}

#[test]
fn repo_owner_name_ignores_deeper_segments() {
    let (owner, name) =
        repo_owner_name("https://github.com/rybla/linkstitcher/tree/main/src").unwrap();
    assert_eq!(owner, "rybla");
    assert_eq!(name, "linkstitcher");
}

#[test]
fn repo_owner_name_missing_segment() {
    assert_eq!(
        repo_owner_name("https://github.com"),
        Err(ExtractError::MissingRepoName)
    );
}

#[test]
fn repo_owner_name_bad_url() {
    assert_eq!(repo_owner_name("not a url"), Err(ExtractError::BadUrl));
}

#[test]
fn content_kind_missing_header() {
    assert_eq!(content_kind(None), ContentKind::MissingHeader);
}

#[test]
fn content_kind_pdf() {
    assert_eq!(content_kind(Some("text/pdf")), ContentKind::Pdf);
}

#[test]
fn content_kind_html_with_charset() {
    assert_eq!(
        content_kind(Some("text/html; charset=utf-8")),
        ContentKind::Html
    );
}

#[test]
fn content_kind_unhandled() {
    assert_eq!(content_kind(Some("image/png")), ContentKind::Unhandled);
}
