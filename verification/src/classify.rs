//! The source classifier: given a URL, decides which extraction strategy
//! applies, by ordered prefix rules — first matching rule wins. Also the
//! pure input-side halves of the extractors: the paper id taken from a paper
//! URL, the owner and repository name taken from a code-host URL, and the
//! content-type dispatch of the generic document fetch.

use vstd::prelude::*;

verus! {

use crate::outside::{url_path, url_path_of};
use crate::text::{ends_with_str, split_acc, split_char_str, starts_with_str, str_eq};

/// The classification bucket that drives the extraction strategy for a URL.
#[derive(Debug, Clone, Copy, PartialEq, Eq, Structural)]
pub enum SourceKind {
    /// An academic-paper repository URL (PDF, abstract or HTML path).
    Paper,
    /// A social-platform post.
    SocialPost,
    /// A code-hosting repository.
    Repository,
    /// Anything else: fetched and dispatched on its content type.
    GenericDocument,
}

/// Why a source-specific field could not be read off a URL.
#[derive(Debug, Clone, Copy, PartialEq, Eq, Structural)]
pub enum ExtractError {
    /// The URL does not parse, or its path cannot be split into segments.
    BadUrl,
    /// A code-host URL whose path has no second segment to name the
    /// repository.
    MissingRepoName,
}

/// The URL follows the paper repository's PDF, abstract or HTML path
/// convention.
pub open spec fn is_paper_url(u: Seq<char>) -> bool {
    ||| "https://arxiv.org/pdf/"@.is_prefix_of(u)
    ||| "https://arxiv.org/abs/"@.is_prefix_of(u)
    ||| "https://arxiv.org/html/"@.is_prefix_of(u)
}

/// The ordered classification rules: paper paths first, then the social
/// host, then the code host, and a generic fallback.
pub open spec fn classify_spec(u: Seq<char>) -> SourceKind {
    if is_paper_url(u) {
        SourceKind::Paper
    } else if "https://x.com/"@.is_prefix_of(u) {
        SourceKind::SocialPost
    } else if "https://github.com"@.is_prefix_of(u) {
        SourceKind::Repository
    } else {
        SourceKind::GenericDocument
    }
}

/// Decides which extraction strategy applies to `url`. Total: every URL gets
/// a kind, with `GenericDocument` as the fallback.
pub fn classify(url: &str) -> (k: SourceKind)
    ensures
        k == classify_spec(url@),
{
    if starts_with_str(url, "https://arxiv.org/pdf/") || starts_with_str(
        url,
        "https://arxiv.org/abs/",
    ) || starts_with_str(url, "https://arxiv.org/html/") {
        SourceKind::Paper
    } else if starts_with_str(url, "https://x.com/") {
        SourceKind::SocialPost
    } else if starts_with_str(url, "https://github.com") {
        SourceKind::Repository
    } else {
        SourceKind::GenericDocument
    }
}

/// Rule order: a URL on a paper path is classified `Paper` and never falls
/// through to any later rule, whatever host the later rules would match.
pub proof fn lemma_paper_url_precedence(u: Seq<char>)
    requires
        is_paper_url(u),
    ensures
        classify_spec(u) == SourceKind::Paper,
{
}

/// A URL classified `Paper` always yields a paper id, and only such a URL
/// does: the classifier's first rule and the id extraction read the same
/// path prefixes.
pub proof fn lemma_paper_classification_has_id(u: Seq<char>)
    ensures
        classify_spec(u) == SourceKind::Paper <==> arxiv_id_of(u) is Some,
{
}

/// The paper id of a paper URL: the matched path prefix stripped, and a
/// trailing `.pdf` stripped from a PDF path.
pub open spec fn arxiv_id_of(u: Seq<char>) -> Option<Seq<char>> {
    if "https://arxiv.org/pdf/"@.is_prefix_of(u) {
        let rest = u.skip("https://arxiv.org/pdf/"@.len() as int);
        if ".pdf"@.is_suffix_of(rest) {
            Some(rest.take(rest.len() - ".pdf"@.len()))
        } else {
            Some(rest)
        }
    } else if "https://arxiv.org/abs/"@.is_prefix_of(u) {
        Some(u.skip("https://arxiv.org/abs/"@.len() as int))
    } else if "https://arxiv.org/html/"@.is_prefix_of(u) {
        Some(u.skip("https://arxiv.org/html/"@.len() as int))
    } else {
        None
    }
}

/// Extracts the paper id from a paper URL, or nothing when the URL is on no
/// paper path.
pub fn get_id_from_url(url: &str) -> (r: Option<String>)
    ensures
        r is Some <==> arxiv_id_of(url@) is Some,
        r matches Some(id) ==> Some(id@) == arxiv_id_of(url@),
{
    let len = url.unicode_len();
    if starts_with_str(url, "https://arxiv.org/pdf/") {
        let plen = "https://arxiv.org/pdf/".unicode_len();
        let rest = url.substring_char(plen, len);
        assert(rest@ =~= url@.skip(plen as int));
        if ends_with_str(rest, ".pdf") {
            let rlen = rest.unicode_len();
            let slen = ".pdf".unicode_len();
            let id = rest.substring_char(0, rlen - slen);
            assert(id@ =~= rest@.take(rest@.len() - ".pdf"@.len()));
            Some(id.to_owned())
        } else {
            Some(rest.to_owned())
        }
    } else if starts_with_str(url, "https://arxiv.org/abs/") {
        let plen = "https://arxiv.org/abs/".unicode_len();
        let rest = url.substring_char(plen, len);
        assert(rest@ =~= url@.skip(plen as int));
        Some(rest.to_owned())
    } else if starts_with_str(url, "https://arxiv.org/html/") {
        let plen = "https://arxiv.org/html/".unicode_len();
        let rest = url.substring_char(plen, len);
        assert(rest@ =~= url@.skip(plen as int));
        Some(rest.to_owned())
    } else {
        None
    }
}

/// What the code-hosting API knows of a repository: its owner, its name, and
/// its decoded README text when it has one.
#[derive(Debug, Clone, PartialEq)]
pub struct RepoInfo {
    pub owner: String,
    pub name: String,
    pub readme: Option<String>,
}

/// The path segments of a URL path: the path split at `/`, a leading empty
/// segment from the leading slash dropped.
pub open spec fn path_segments_of(p: Seq<char>) -> Seq<Seq<char>> {
    if p.len() > 0 && p[0] == '/' {
        split_acc(p.skip(1), '/', Seq::empty())
    } else {
        split_acc(p, '/', Seq::empty())
    }
}

/// The owner and repository name of a code-host URL: the first two path
/// segments. A URL that does not parse into segments is rejected, as is a
/// path with no second segment; deeper path segments are ignored.
pub fn repo_owner_name(url: &str) -> (r: Result<(String, String), ExtractError>)
    ensures
        r is Ok <==> (url_path_of(url@) matches Some(p) && path_segments_of(p).len() >= 2),
        r matches Ok(on) ==> {
            &&& url_path_of(url@) matches Some(p)
            &&& on.0@ == path_segments_of(p)[0]
            &&& on.1@ == path_segments_of(p)[1]
        },
        r matches Err(e) ==> {
            &&& (e == ExtractError::BadUrl <==> url_path_of(url@) is None)
            &&& (e == ExtractError::MissingRepoName <==> (url_path_of(url@) matches Some(p)
                && path_segments_of(p).len() < 2))
        },
    {
        let path = match url_path(url) {
            None => {
                return Err(ExtractError::BadUrl);
            },
            Some(p) => p,
        };
        let plen = path.as_str().unicode_len();
        let trimmed = if plen > 0 && path.as_str().get_char(0) == '/' {
            let t = path.as_str().substring_char(1, plen);
            assert(t@ =~= path@.skip(1));
            t
        } else {
            path.as_str()
        };
        let mut segments = split_char_str(trimmed, '/');
        if segments.len() < 2 {
            return Err(ExtractError::MissingRepoName);
        }
        let owner = segments.remove(0);
        let name = segments.remove(0);
        assert(owner@ == path_segments_of(url_path_of(url@)->Some_0)[0]);
        assert(name@ == path_segments_of(url_path_of(url@)->Some_0)[1]);
        Ok((owner, name))
    }

/// The branch taken on a generic document's `content-type` header.
#[derive(Debug, Clone, Copy, PartialEq, Eq, Structural)]
pub enum ContentKind {
    /// No header at all: a fatal extraction error for this fetch.
    MissingHeader,
    /// A PDF body, handed to the PDF-to-text conversion.
    Pdf,
    /// An HTML body, handed to the readability extractor.
    Html,
    /// Anything else: logged as unrecognized, no content extracted.
    Unhandled,
}

/// The content-type dispatch of the generic document extractor.
pub open spec fn content_kind_spec(content_type: Option<Seq<char>>) -> ContentKind {
    match content_type {
        None => ContentKind::MissingHeader,
        Some(t) => {
            if t == "text/pdf"@ {
                ContentKind::Pdf
            } else if "text/html"@.is_prefix_of(t) {
                ContentKind::Html
            } else {
                ContentKind::Unhandled
            }
        },
    }
}

/// Decides what to do with a generic document from its `content-type`
/// header.
pub fn content_kind(content_type: Option<&str>) -> (k: ContentKind)
    ensures
        k == content_kind_spec(match content_type {
            None => None,
            Some(t) => Some(t@),
        }),
{
    match content_type {
        None => ContentKind::MissingHeader,
        Some(t) => {
            if str_eq(t, "text/pdf") {
                ContentKind::Pdf
            } else if starts_with_str(t, "text/html") {
                ContentKind::Html
            } else {
                ContentKind::Unhandled
            }
        },
    }
}

} // verus!
