//! The crate's trusted boundary: every call into an outside crate, and into
//! the few std functions that vstd gives no specification, lives here behind
//! a small wrapper whose contract the rest of the crate is verified against.

use vstd::prelude::*;

verus! {

use crate::arxiv::XmlNode;
use crate::preview::Date;

/// What `str::trim` returns for a given character sequence.
pub uninterp spec fn trimmed_of(s: Seq<char>) -> Seq<char>;

/// What the oEmbed fragment stripper returns: the text nodes of an HTML
/// fragment, each preceded by one space.
pub uninterp spec fn fragment_text_of(html: Seq<char>) -> Seq<char>;

/// The path of a URL, when the URL parses and its path can be split into
/// segments.
pub uninterp spec fn url_path_of(url: Seq<char>) -> Option<Seq<char>>;

/// Relies on std's `String::push`: appends one character.
#[verifier::external_body]
pub(crate) fn push_char(s: &mut String, c: char)
    ensures
        final(s)@ == old(s)@.push(c),
{
    s.push(c);
}

/// Relies on std's `str::trim`: removes leading and trailing whitespace. Its
/// result depends on the characters alone, so it is only named; it never
/// grows the input.
#[verifier::external_body]
pub(crate) fn trim_str(s: &str) -> (r: String)
    ensures
        r@ == trimmed_of(s@),
        r@.len() <= s@.len(),
{
    s.trim().to_owned()
}

/// Relies on chrono's `Utc::now` and `Datelike::num_days_from_ce` for the
/// current calendar day. The result depends on the clock, so nothing is
/// promised of it.
#[verifier::external_body]
pub(crate) fn today() -> Date {
    Date { days: chrono::Datelike::num_days_from_ce(&chrono::Utc::now().date_naive()) }
}

/// Relies on scraper's `Html::parse_fragment` and the `text` traversal of the
/// parsed fragment: the text nodes of the fragment in document order. The
/// result depends on the fragment alone, so it is named, one leading space
/// per text node as the social extractor wants it.
#[verifier::external_body]
pub(crate) fn fragment_text(html: &str) -> (r: String)
    ensures
        r@ == fragment_text_of(html@),
{
    let fragment = scraper::Html::parse_fragment(html);
    let mut text = String::new();
    for s in fragment.root_element().text() {
        text.push(' ');
        text.push_str(s);
    }
    text
}

/// Relies on url's `Url::parse`, `Url::cannot_be_a_base` and `Url::path`:
/// the path of the parsed URL, absent when the URL does not parse or has no
/// segmented path. The result depends on the URL alone, so it is named.
#[verifier::external_body]
pub(crate) fn url_path(url: &str) -> (r: Option<String>)
    ensures
        r is Some <==> url_path_of(url@) is Some,
        r matches Some(p) ==> Some(p@) == url_path_of(url@),
{
    match url::Url::parse(url) {
        Err(_) => None,
        Ok(u) => {
            if u.cannot_be_a_base() {
                None
            } else {
                Some(u.path().to_owned())
            }
        },
    }
}

/// What the XML pull parser yields on a given answer text, reduced to the
/// events the paper parser reads.
pub uninterp spec fn xml_events_of(body: Seq<char>) -> Seq<crate::arxiv::XmlNodeV>;

/// Relies on xml-rs's `EventReader` and its event iterator, which yields
/// each pull event once and stops after the document's end or the first
/// error. Each event is reduced one for one: opening and closing tags by
/// local name, attributes by local name and value, character data verbatim,
/// an error as a closing `Fault`, anything else as `Other`. The result
/// depends on the text alone, so it is named.
#[verifier::external_body]
pub(crate) fn xml_events(body: &str) -> (r: Vec<crate::arxiv::XmlNode>)
    ensures
        r.deep_view() == xml_events_of(body@),
{
    let mut out = Vec::new();
    for event in xml::reader::EventReader::from_str(body) {
        out.push(match event {
            Ok(xml::reader::XmlEvent::StartElement { name, attributes, .. }) => XmlNode::Start(
                name.local_name,
                attributes.into_iter().map(|a| (a.name.local_name, a.value)).collect(),
            ),
            Ok(xml::reader::XmlEvent::Characters(text)) => XmlNode::Text(text),
            Ok(xml::reader::XmlEvent::EndElement { name }) => XmlNode::End(name.local_name),
            Ok(_) => XmlNode::Other,
            Err(_) => XmlNode::Fault,
        });
    }
    out
}

#[verifier::external_type_specification]
#[verifier::external_body]
pub struct ExReadability(readability_js::Readability);

/// Relies on readability-js's `Readability::parse_with_url`: extracts the
/// main article of an HTML document. Nothing is promised of the outcome; the
/// caller decides per branch, and on failure the extractor's message is
/// carried over.
#[verifier::external_body]
pub(crate) fn readability_parse(
    reader: &readability_js::Readability,
    html: &str,
    url: &str,
) -> Result<crate::enrich::HtmlArticle, crate::enrich::ReadabilityFailure> {
    match reader.parse_with_url(html, url) {
        Ok(article) => Ok(
            crate::enrich::HtmlArticle {
                title: article.title,
                text_content: article.text_content,
                published_time: article.published_time,
            },
        ),
        Err(e) => Err(crate::enrich::ReadabilityFailure { message: e.to_string() }),
    }
}

} // verus!
