//! The enrichment half of the pipeline that runs after a fetch: merging each
//! extractor's output into the Preview record, the summary fallback chain of
//! the normalizer, and the tag-synthesizer step of bookmarking. Everything
//! here is deterministic post-processing; the fetches themselves happen
//! outside the library.

use vstd::prelude::*;

verus! {

use crate::arxiv::Arxiv;
use crate::outside::{fragment_text, fragment_text_of, readability_parse};
use crate::preview::Preview;
use crate::text::{join_spec, join_with, starts_with_str, truncate_chars, truncate_spec};

/// The character budget of a summary taken from raw content: truncation is
/// by Unicode scalar, without an ellipsis.
pub const MAX_CHARS_SUMMARY: usize = 600;

/// The provenance header put in front of a summary whose source is known.
pub open spec fn source_prefix(source: Seq<char>) -> Seq<char> {
    "Source: "@ + source + "\n\n"@
}

/// The summary after the two fallback rules and before the provenance
/// header: an already-set summary is kept; an unset one is filled from the
/// truncated raw content, or failing that from the title.
pub open spec fn pre_source_summary(
    summary0: Option<Seq<char>>,
    title: Option<Seq<char>>,
    content: Option<Seq<char>>,
) -> Option<Seq<char>> {
    if summary0 is Some {
        summary0
    } else if content is Some {
        Some(truncate_spec(content->0, MAX_CHARS_SUMMARY as int))
    } else if title is Some {
        Some("Title: "@ + title->0)
    } else {
        None
    }
}

/// The summary the normalizer leaves behind: the fallback chain's summary,
/// with the provenance header put in front exactly once when the source is
/// known — a summary already bearing the header is left alone.
pub open spec fn normalized_summary(
    summary0: Option<Seq<char>>,
    title: Option<Seq<char>>,
    source: Option<Seq<char>>,
    content: Option<Seq<char>>,
) -> Option<Seq<char>> {
    let s = pre_source_summary(summary0, title, content);
    if s is Some && source is Some {
        if source_prefix(source->0).is_prefix_of(s->0) {
            s
        } else {
            Some(source_prefix(source->0) + s->0)
        }
    } else {
        s
    }
}

/// The normalizer: applies the summary fallback chain and the provenance
/// header to the record, touching nothing but the summary.
pub fn normalize_summary(preview: &mut Preview, content: Option<&String>)
    ensures
        final(preview).summary.deep_view() == normalized_summary(
            old(preview).summary.deep_view(),
            old(preview).title.deep_view(),
            old(preview).source.deep_view(),
            content.deep_view(),
        ),
        *final(preview) == (Preview { summary: final(preview).summary, ..*old(preview) }),
{
    if preview.summary.is_none() {
        if let Some(c) = content {
            preview.summary = Some(truncate_chars(c.as_str(), MAX_CHARS_SUMMARY));
        }
    }
    if preview.summary.is_none() {
        if let Some(t) = &preview.title {
            let mut s = String::new();
            s.append("Title: ");
            s.append(t.as_str());
            preview.summary = Some(s);
        }
    }
    let prefixed: Option<String> = match (&preview.source, &preview.summary) {
        (Some(src), Some(sum)) => {
            let mut prefix = String::new();
            prefix.append("Source: ");
            prefix.append(src.as_str());
            prefix.append("\n\n");
            if starts_with_str(sum.as_str(), prefix.as_str()) {
                None
            } else {
                let mut ns = prefix;
                ns.append(sum.as_str());
                Some(ns)
            }
        },
        _ => None,
    };
    if let Some(ns) = prefixed {
        preview.summary = Some(ns);
    }
}

/// The provenance header is applied exactly once: running the normalizer
/// again on a record it has already normalized — whatever raw content the
/// second run sees — leaves the summary as the first run left it.
pub proof fn lemma_normalize_applied_once(
    summary0: Option<Seq<char>>,
    title: Option<Seq<char>>,
    source: Option<Seq<char>>,
    content: Option<Seq<char>>,
    content2: Option<Seq<char>>,
)
    requires
        normalized_summary(summary0, title, source, content) is Some,
    ensures
        normalized_summary(
            normalized_summary(summary0, title, source, content),
            title,
            source,
            content2,
        ) == normalized_summary(summary0, title, source, content),
{
    let s1 = normalized_summary(summary0, title, source, content);
    if source is Some {
        let src = source->0;
        let sum = s1->0;
        assert(source_prefix(src).is_prefix_of(sum)) by {
            let s = pre_source_summary(summary0, title, content);
            if !source_prefix(src).is_prefix_of(s->0) {
                assert(sum == source_prefix(src) + s->0);
                assert(source_prefix(src) =~= sum.subrange(0, source_prefix(src).len() as int));
            }
        }
    }
}

/// Merges a fetched paper record into the preview: title, published date and
/// summary are taken from the paper; the provenance label is set only when
/// none is present; the category names, when there are any, are joined into
/// the comma-separated tag list. The raw content handed on is the paper's
/// abstract.
pub fn apply_arxiv(preview: &mut Preview, article: &Arxiv) -> (content: String)
    ensures
        content@ == article@.summary,
        final(preview).title.deep_view() == Some(article@.title),
        final(preview).published_date.deep_view() == Some(article@.published),
        old(preview).source is Some ==> final(preview).source == old(preview).source,
        old(preview).source is None ==> final(preview).source.deep_view() == Some("ArXiv"@),
        article@.category_names.len() == 0 ==> final(preview).tags is None,
        article@.category_names.len() > 0 ==> final(preview).tags.deep_view() == Some(
            join_spec(article@.category_names, ", "@),
        ),
        final(preview).summary.deep_view() == Some(article@.summary),
        *final(preview) == (Preview {
            title: final(preview).title,
            published_date: final(preview).published_date,
            source: final(preview).source,
            tags: final(preview).tags,
            summary: final(preview).summary,
            ..*old(preview)
        }),
{
    preview.title = Some(article.title.clone());
    preview.published_date = Some(article.published.clone());
    if preview.source.is_none() {
        let mut label = String::new();
        label.append("ArXiv");
        preview.source = Some(label);
    }
    if article.category_names.len() == 0 {
        preview.tags = None;
    } else {
        preview.tags = Some(join_with(&article.category_names, ", "));
    }
    preview.summary = Some(article.summary.clone());
    article.summary.clone()
}

/// What the social platform's oEmbed endpoint returns for a post: its URL,
/// its author, and the embeddable HTML fragment whose text the extractor
/// strips.
#[derive(Debug, Clone, PartialEq)]
pub struct Post {
    pub url: String,
    pub author_name: String,
    pub author_url: String,
    pub html: String,
}

/// Merges a social post's embedded HTML fragment into the preview: the
/// summary becomes the fragment's text truncated to the character budget.
/// The raw content handed on is the untruncated text.
pub fn apply_social(preview: &mut Preview, html: &str) -> (content: String)
    ensures
        content@ == fragment_text_of(html@),
        final(preview).summary.deep_view() == Some(
            truncate_spec(fragment_text_of(html@), MAX_CHARS_SUMMARY as int),
        ),
        *final(preview) == (Preview { summary: final(preview).summary, ..*old(preview) }),
{
    let text = fragment_text(html);
    preview.summary = Some(truncate_chars(text.as_str(), MAX_CHARS_SUMMARY));
    text
}

/// Merges a repository's README into the preview: the summary becomes the
/// truncated README text, or absent when there is none. The raw content
/// handed on is the undecorated README.
pub fn apply_repo(preview: &mut Preview, readme: Option<String>) -> (content: Option<String>)
    ensures
        content.deep_view() == readme.deep_view(),
        final(preview).summary.deep_view() == match readme.deep_view() {
            None => None::<Seq<char>>,
            Some(t) => Some(truncate_spec(t, MAX_CHARS_SUMMARY as int)),
        },
        *final(preview) == (Preview { summary: final(preview).summary, ..*old(preview) }),
{
    match readme {
        None => {
            preview.summary = None;
            None
        },
        Some(text) => {
            preview.summary = Some(truncate_chars(text.as_str(), MAX_CHARS_SUMMARY));
            Some(text)
        },
    }
}

/// What the readability extractor hands back for an HTML document.
#[derive(Debug, Clone, PartialEq)]
pub struct HtmlArticle {
    pub title: String,
    pub text_content: String,
    pub published_time: Option<String>,
}

/// A failed readability extraction, with the extractor's message.
#[derive(Debug, Clone, PartialEq)]
pub struct ReadabilityFailure {
    pub message: String,
}

/// Merges a successful readability extraction into the preview: its title,
/// and its published time when it found one.
pub fn apply_html_article(preview: &mut Preview, title: &str, published_time: Option<String>)
    ensures
        final(preview).title.deep_view() == Some(title@),
        published_time is Some ==> final(preview).published_date == published_time,
        published_time is None ==> final(preview).published_date == old(preview).published_date,
        *final(preview) == (Preview {
            title: final(preview).title,
            published_date: final(preview).published_date,
            ..*old(preview)
        }),
{
    preview.title = Some(title.to_owned());
    if let Some(pub_date) = published_time {
        preview.published_date = Some(pub_date);
    }
}

/// The fallback when readability fails on an HTML document: the URL itself
/// becomes the title, and no content is extracted.
pub fn apply_html_fallback(preview: &mut Preview)
    ensures
        final(preview).title.deep_view() == Some(old(preview).url@),
        *final(preview) == (Preview { title: final(preview).title, ..*old(preview) }),
{
    let url = preview.url.clone();
    preview.title = Some(url);
}

/// Runs the readability extractor on a fetched HTML document and merges the
/// outcome: on success the article's title and published time, and its main
/// body text as raw content; on failure the URL-as-title fallback, with no
/// content. Either way the preview ends up with a title, and nothing but
/// title and published date is touched.
pub fn embellish_html(
    preview: &mut Preview,
    reader: &readability_js::Readability,
    html: &str,
) -> (content: Option<String>)
    ensures
        final(preview).title is Some,
        content is None ==> final(preview).title.deep_view() == Some(old(preview).url@)
            && final(preview).published_date == old(preview).published_date,
        *final(preview) == (Preview {
            title: final(preview).title,
            published_date: final(preview).published_date,
            ..*old(preview)
        }),
{
    match readability_parse(reader, html, preview.url.as_str()) {
        Err(_) => {
            apply_html_fallback(preview);
            None
        },
        Ok(article) => {
            apply_html_article(preview, article.title.as_str(), article.published_time);
            Some(article.text_content)
        },
    }
}

/// The prompt sent to the text-completion service to synthesize tags for a
/// bookmarked record.
pub open spec fn tag_prompt_spec(title: Seq<char>, summary: Seq<char>) -> Seq<char> {
    "Consider the following content:\n\nTitle: "@ + title + "\n\nText:\n\n"@ + summary
        + "...\n\nWrite a comma-separated list of categorizational tags for the above content. Respond ONLY with the comma-separated list"@
}

/// The tag-synthesis request for a record, made only when tags are still
/// unset and both title and summary are present.
pub fn tag_prompt(preview: &Preview) -> (r: Option<String>)
    ensures
        r is Some <==> (preview.tags is None && preview.title is Some && preview.summary is Some),
        r matches Some(p) ==> p@ == tag_prompt_spec(
            preview.title->Some_0@,
            preview.summary->Some_0@,
        ),
{
    if preview.tags.is_some() {
        return None;
    }
    match (&preview.title, &preview.summary) {
        (Some(title), Some(summary)) => {
            let mut p = String::new();
            p.append("Consider the following content:\n\nTitle: ");
            p.append(title.as_str());
            p.append("\n\nText:\n\n");
            p.append(summary.as_str());
            p.append(
                "...\n\nWrite a comma-separated list of categorizational tags for the above content. Respond ONLY with the comma-separated list",
            );
            Some(p)
        },
        _ => None,
    }
}

/// Finishes the bookmarking step: a tag response, when one was obtained and
/// tags were still unset, is stored verbatim; the bookmarked flag is set
/// unconditionally, whether or not tag synthesis succeeded.
pub fn apply_bookmark(preview: &mut Preview, tags_response: Option<String>)
    ensures
        final(preview).bookmarked,
        final(preview).tags == (if old(preview).tags is None && tags_response is Some {
            tags_response
        } else {
            old(preview).tags
        }),
        *final(preview) == (Preview {
            bookmarked: true,
            tags: final(preview).tags,
            ..*old(preview)
        }),
{
    if preview.tags.is_none() {
        if let Some(response) = tags_response {
            preview.tags = Some(response);
        }
    }
    preview.bookmarked = true;
}

} // verus!
