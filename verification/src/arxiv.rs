//! The academic-paper metadata source: the record a paper query returns, the
//! query URL builder, the parser for the metadata API's XML answer, and the
//! category-code naming table.

use vstd::prelude::*;

verus! {

use crate::categories::category_name_spec;
use crate::categories::get_category_code_name;
use crate::outside::{xml_events, xml_events_of};
use crate::text::{
    dec_int,
    join_spec,
    join_with,
    i32_to_string,
    replace_first,
    replace_first_spec,
    str_eq,
};

/// One event of the metadata API's XML answer, reduced to what the parser
/// reads: tags by their local names, attributes by local name and value.
#[derive(Debug, Clone, PartialEq)]
pub enum XmlNode {
    /// An opening tag: its local name, and its attributes.
    Start(String, Vec<(String, String)>),
    /// A run of character data.
    Text(String),
    /// A closing tag: its local name.
    End(String),
    /// Any other event of a well-formed document.
    Other,
    /// A parse error: the answer is malformed from here on, and this is the
    /// last event.
    Fault,
}

/// The mathematical shape of an XML event.
pub enum XmlNodeV {
    Start(Seq<char>, Seq<(Seq<char>, Seq<char>)>),
    Text(Seq<char>),
    End(Seq<char>),
    Other,
    Fault,
}

impl View for XmlNode {
    type V = XmlNodeV;

    open spec fn view(&self) -> XmlNodeV {
        match self {
            XmlNode::Start(name, attrs) => XmlNodeV::Start(name@, attrs.deep_view()),
            XmlNode::Text(t) => XmlNodeV::Text(t@),
            XmlNode::End(name) => XmlNodeV::End(name@),
            XmlNode::Other => XmlNodeV::Other,
            XmlNode::Fault => XmlNodeV::Fault,
        }
    }
}

impl DeepView for XmlNode {
    type V = XmlNodeV;

    open spec fn deep_view(&self) -> XmlNodeV {
        self.view()
    }
}

/// The paper information one feed entry of the metadata API carries.
#[derive(Debug, Clone, PartialEq)]
pub struct Arxiv {
    pub id: String,
    pub updated: String,
    pub published: String,
    pub title: String,
    pub summary: String,
    pub authors: Vec<String>,
    pub primary_category: String,
    pub primary_category_name: String,
    pub category_names: Vec<String>,
    pub categories: Vec<String>,
    pub pdf_url: String,
    pub html_url: String,
    pub comment: Option<String>,
}

/// The mathematical shape of a paper record: every text field as a character
/// sequence.
pub struct ArxivV {
    pub id: Seq<char>,
    pub updated: Seq<char>,
    pub published: Seq<char>,
    pub title: Seq<char>,
    pub summary: Seq<char>,
    pub authors: Seq<Seq<char>>,
    pub primary_category: Seq<char>,
    pub primary_category_name: Seq<char>,
    pub category_names: Seq<Seq<char>>,
    pub categories: Seq<Seq<char>>,
    pub pdf_url: Seq<char>,
    pub html_url: Seq<char>,
    pub comment: Option<Seq<char>>,
}

impl DeepView for Arxiv {
    type V = ArxivV;

    open spec fn deep_view(&self) -> ArxivV {
        self.view()
    }
}

impl View for Arxiv {
    type V = ArxivV;

    open spec fn view(&self) -> ArxivV {
        ArxivV {
            id: self.id@,
            updated: self.updated@,
            published: self.published@,
            title: self.title@,
            summary: self.summary@,
            authors: self.authors.deep_view(),
            primary_category: self.primary_category@,
            primary_category_name: self.primary_category_name@,
            category_names: self.category_names.deep_view(),
            categories: self.categories.deep_view(),
            pdf_url: self.pdf_url@,
            html_url: self.html_url@,
            comment: self.comment.deep_view(),
        }
    }
}

/// A paper record with nothing filled in yet.
pub open spec fn arxiv_empty() -> ArxivV {
    ArxivV {
        id: Seq::empty(),
        updated: Seq::empty(),
        published: Seq::empty(),
        title: Seq::empty(),
        summary: Seq::empty(),
        authors: Seq::empty(),
        primary_category: Seq::empty(),
        primary_category_name: Seq::empty(),
        category_names: Seq::empty(),
        categories: Seq::empty(),
        pdf_url: Seq::empty(),
        html_url: Seq::empty(),
        comment: None,
    }
}

impl Arxiv {
    /// An empty paper record, as the parser starts each feed entry with.
    pub fn new() -> (r: Arxiv)
        ensures
            r@ == arxiv_empty(),
    {
        let r = Arxiv {
            id: String::new(),
            updated: String::new(),
            published: String::new(),
            title: String::new(),
            summary: String::new(),
            authors: Vec::new(),
            primary_category: String::new(),
            primary_category_name: String::new(),
            category_names: Vec::new(),
            categories: Vec::new(),
            pdf_url: String::new(),
            html_url: String::new(),
            comment: None,
        };
        proof {
            assert(r.authors.deep_view() =~= Seq::<Seq<char>>::empty());
            assert(r.category_names.deep_view() =~= Seq::<Seq<char>>::empty());
            assert(r.categories.deep_view() =~= Seq::<Seq<char>>::empty());
        }
        r
    }
}

impl Arxiv {
    /// A copy of the record whose shape equals the original's.
    pub fn duplicate(&self) -> (r: Arxiv)
        ensures
            r@ == self@,
    {
        let r = Arxiv {
            id: self.id.clone(),
            updated: self.updated.clone(),
            published: self.published.clone(),
            title: self.title.clone(),
            summary: self.summary.clone(),
            authors: crate::preview::clone_vec_string(&self.authors),
            primary_category: self.primary_category.clone(),
            primary_category_name: self.primary_category_name.clone(),
            category_names: crate::preview::clone_vec_string(&self.category_names),
            categories: crate::preview::clone_vec_string(&self.categories),
            pdf_url: self.pdf_url.clone(),
            html_url: self.html_url.clone(),
            comment: crate::preview::clone_opt_string(&self.comment),
        };
        proof {
            assert(r.authors.deep_view() =~= self.authors.deep_view());
            assert(r.category_names.deep_view() =~= self.category_names.deep_view());
            assert(r.categories.deep_view() =~= self.categories.deep_view());
        }
        r
    }
}

impl Default for Arxiv {
    /// The same empty record.
    fn default() -> (r: Arxiv)
        ensures
            r@ == arxiv_empty(),
    {
        Arxiv::new()
    }
}

/// One query against the metadata API.
#[derive(Debug, Clone, PartialEq, Eq)]
pub struct ArxivQuery {
    pub base_url: String,
    pub search_query: String,
    pub id_list: String,
    pub start: Option<i32>,
    pub max_results: Option<i32>,
    pub sort_by: String,
    pub sort_order: String,
}

/// The `key=value` pieces of a query's URL, in their fixed order, empty and
/// unset fields left out.
pub open spec fn query_parts(q: ArxivQuery) -> Seq<Seq<char>> {
    let p1: Seq<Seq<char>> = if q.search_query@.len() > 0 {
        seq!["search_query="@ + q.search_query@]
    } else {
        Seq::empty()
    };
    let p2: Seq<Seq<char>> = if q.id_list@.len() > 0 {
        seq!["id_list="@ + q.id_list@]
    } else {
        Seq::empty()
    };
    let p3: Seq<Seq<char>> = match q.start {
        Some(v) => seq!["start="@ + dec_int(v as int)],
        None => Seq::empty(),
    };
    let p4: Seq<Seq<char>> = match q.max_results {
        Some(v) => seq!["max_results="@ + dec_int(v as int)],
        None => Seq::empty(),
    };
    let p5: Seq<Seq<char>> = if q.sort_by@.len() > 0 {
        seq!["sortBy="@ + q.sort_by@]
    } else {
        Seq::empty()
    };
    let p6: Seq<Seq<char>> = if q.sort_order@.len() > 0 {
        seq!["sortOrder="@ + q.sort_order@]
    } else {
        Seq::empty()
    };
    p1 + p2 + p3 + p4 + p5 + p6
}

/// The URL of a query: its base, then its parts joined with `&`.
pub open spec fn to_url_spec(q: ArxivQuery) -> Seq<char> {
    q.base_url@ + join_spec(query_parts(q), "&"@)
}

impl ArxivQuery {
    /// Generates the query's URL string.
    pub fn to_url(&self) -> (r: String)
        ensures
            r@ == to_url_spec(*self),
    {
        let mut parts: Vec<String> = Vec::new();
        if self.search_query.as_str().unicode_len() > 0 {
            let mut p = String::new();
            p.append("search_query=");
            p.append(self.search_query.as_str());
            parts.push(p);
        }
        if self.id_list.as_str().unicode_len() > 0 {
            let mut p = String::new();
            p.append("id_list=");
            p.append(self.id_list.as_str());
            parts.push(p);
        }
        if let Some(start) = self.start {
            let mut p = String::new();
            p.append("start=");
            let digits = i32_to_string(start);
            p.append(digits.as_str());
            parts.push(p);
        }
        if let Some(max_results) = self.max_results {
            let mut p = String::new();
            p.append("max_results=");
            let digits = i32_to_string(max_results);
            p.append(digits.as_str());
            parts.push(p);
        }
        if self.sort_by.as_str().unicode_len() > 0 {
            let mut p = String::new();
            p.append("sortBy=");
            p.append(self.sort_by.as_str());
            parts.push(p);
        }
        if self.sort_order.as_str().unicode_len() > 0 {
            let mut p = String::new();
            p.append("sortOrder=");
            p.append(self.sort_order.as_str());
            parts.push(p);
        }
        proof {
            assert(parts.deep_view() =~= query_parts(*self));
        }
        let joined = join_with(&parts, "&");
        let mut r = String::new();
        r.append(self.base_url.as_str());
        r.append(joined.as_str());
        r
    }
}

/// Why the metadata API's answer yielded no paper record.
#[derive(Debug, Clone, Copy, PartialEq, Eq, Structural)]
pub enum ArxivError {
    /// The answer is not the well-formed feed document the parser expects.
    Malformed,
    /// A well-formed feed with no entry for the queried id.
    NoResults,
}

/// The value of the first attribute with the given local name.
pub open spec fn find_attr(attrs: Seq<(Seq<char>, Seq<char>)>, key: Seq<char>) -> Option<Seq<char>>
    decreases attrs.len(),
{
    if attrs.len() == 0 {
        None
    } else if attrs[0].0 == key {
        Some(attrs[0].1)
    } else {
        find_attr(attrs.drop_first(), key)
    }
}

/// Some attribute has the given local name and value.
pub open spec fn has_attr(
    attrs: Seq<(Seq<char>, Seq<char>)>,
    key: Seq<char>,
    value: Seq<char>,
) -> bool {
    exists|i: int| 0 <= i < attrs.len() && attrs[i] == (key, value)
}

/// One feed entry's record, folded over the event stream from position `i`
/// with `cur` the entry under construction and `acc` the finished entries:
/// `None` when the stream is malformed (a parse fault, or no closing feed
/// tag), and otherwise the entries in order.
///
/// Mirrors the pull discipline of the extractor: a text field's tag consumes
/// the following event and reads it when it is character data; an author tag
/// consumes three and reads the third; category and link tags read their
/// attributes; a closing entry tag commits the record, and the closing feed
/// tag ends the fold.
pub open spec fn parse_entries(
    events: Seq<XmlNodeV>,
    i: int,
    cur: ArxivV,
    acc: Seq<ArxivV>,
) -> Option<Seq<ArxivV>>
    decreases events.len() - i,
{
    if i < 0 || i >= events.len() {
        None
    } else {
        match events[i] {
            XmlNodeV::Fault => None,
            XmlNodeV::Start(name, attrs) => {
                if name == "entry"@ {
                    parse_entries(events, i + 1, arxiv_empty(), acc)
                } else if name == "id"@ {
                    if i + 1 >= events.len() {
                        None
                    } else {
                        match events[i + 1] {
                            XmlNodeV::Text(t) => parse_entries(
                                events,
                                i + 2,
                                ArxivV { id: t, ..cur },
                                acc,
                            ),
                            _ => parse_entries(events, i + 2, cur, acc),
                        }
                    }
                } else if name == "updated"@ {
                    if i + 1 >= events.len() {
                        None
                    } else {
                        match events[i + 1] {
                            XmlNodeV::Text(t) => parse_entries(
                                events,
                                i + 2,
                                ArxivV { updated: t, ..cur },
                                acc,
                            ),
                            _ => parse_entries(events, i + 2, cur, acc),
                        }
                    }
                } else if name == "published"@ {
                    if i + 1 >= events.len() {
                        None
                    } else {
                        match events[i + 1] {
                            XmlNodeV::Text(t) => parse_entries(
                                events,
                                i + 2,
                                ArxivV { published: t, ..cur },
                                acc,
                            ),
                            _ => parse_entries(events, i + 2, cur, acc),
                        }
                    }
                } else if name == "title"@ {
                    if i + 1 >= events.len() {
                        None
                    } else {
                        match events[i + 1] {
                            XmlNodeV::Text(t) => parse_entries(
                                events,
                                i + 2,
                                ArxivV { title: t, ..cur },
                                acc,
                            ),
                            _ => parse_entries(events, i + 2, cur, acc),
                        }
                    }
                } else if name == "summary"@ {
                    if i + 1 >= events.len() {
                        None
                    } else {
                        match events[i + 1] {
                            XmlNodeV::Text(t) => parse_entries(
                                events,
                                i + 2,
                                ArxivV { summary: t, ..cur },
                                acc,
                            ),
                            _ => parse_entries(events, i + 2, cur, acc),
                        }
                    }
                } else if name == "comment"@ {
                    if i + 1 >= events.len() {
                        None
                    } else {
                        match events[i + 1] {
                            XmlNodeV::Text(t) => parse_entries(
                                events,
                                i + 2,
                                ArxivV { comment: Some(t), ..cur },
                                acc,
                            ),
                            _ => parse_entries(events, i + 2, cur, acc),
                        }
                    }
                } else if name == "author"@ {
                    if i + 3 >= events.len() {
                        None
                    } else {
                        match events[i + 3] {
                            XmlNodeV::Text(t) => parse_entries(
                                events,
                                i + 4,
                                ArxivV { authors: cur.authors.push(t), ..cur },
                                acc,
                            ),
                            _ => parse_entries(events, i + 4, cur, acc),
                        }
                    }
                } else if name == "primary_category"@ {
                    match find_attr(attrs, "term"@) {
                        Some(v) => parse_entries(
                            events,
                            i + 1,
                            ArxivV {
                                primary_category: v,
                                primary_category_name: category_name_spec(v),
                                ..cur
                            },
                            acc,
                        ),
                        None => parse_entries(events, i + 1, cur, acc),
                    }
                } else if name == "category"@ {
                    match find_attr(attrs, "term"@) {
                        Some(v) => parse_entries(
                            events,
                            i + 1,
                            ArxivV {
                                categories: cur.categories.push(v),
                                category_names: cur.category_names.push(category_name_spec(v)),
                                ..cur
                            },
                            acc,
                        ),
                        None => parse_entries(events, i + 1, cur, acc),
                    }
                } else if name == "link"@ {
                    parse_entries(events, i + 1, linked(cur, attrs), acc)
                } else {
                    parse_entries(events, i + 1, cur, acc)
                }
            },
            XmlNodeV::End(name) => {
                if name == "entry"@ {
                    parse_entries(events, i + 1, cur, acc.push(cur))
                } else if name == "feed"@ {
                    Some(acc)
                } else {
                    parse_entries(events, i + 1, cur, acc)
                }
            },
            XmlNodeV::Text(_) => parse_entries(events, i + 1, cur, acc),
            XmlNodeV::Other => parse_entries(events, i + 1, cur, acc),
        }
    }
}

/// What a link tag contributes: a link titled `pdf` sets the PDF URL (made
/// https, with a `.pdf` suffix), a link typed `text/html` sets the HTML URL
/// (made https).
pub open spec fn linked(cur: ArxivV, attrs: Seq<(Seq<char>, Seq<char>)>) -> ArxivV {
    let c1 = if has_attr(attrs, "title"@, "pdf"@) && find_attr(attrs, "href"@) is Some {
        ArxivV {
            pdf_url: replace_first_spec(find_attr(attrs, "href"@)->0, "http"@, "https"@)
                + ".pdf"@,
            ..cur
        }
    } else {
        cur
    };
    if has_attr(attrs, "type"@, "text/html"@) && find_attr(attrs, "href"@) is Some {
        ArxivV {
            html_url: replace_first_spec(find_attr(attrs, "href"@)->0, "http"@, "https"@),
            ..c1
        }
    } else {
        c1
    }
}

/// The paper records of an answer's event stream.
pub open spec fn arxiv_entries(events: Seq<XmlNodeV>) -> Option<Seq<ArxivV>> {
    parse_entries(events, 0, arxiv_empty(), Seq::empty())
}

/// The value of the first attribute with the given local name.
fn find_attr_str(attrs: &Vec<(String, String)>, key: &str) -> (r: Option<String>)
    ensures
        r.deep_view() == find_attr(attrs.deep_view(), key@),
{
    let n = attrs.len();
    let mut j: usize = 0;
    proof {
        assert(attrs.deep_view().skip(0) =~= attrs.deep_view());
    }
    while j < n
        invariant
            n == attrs@.len(),
            j <= n,
            find_attr(attrs.deep_view(), key@) == find_attr(
                attrs.deep_view().skip(j as int),
                key@,
            ),
        decreases n - j,
    {
        proof {
            assert(attrs.deep_view().skip(j as int)[0] == attrs.deep_view()[j as int]);
            assert(attrs.deep_view().skip(j as int).drop_first() =~= attrs.deep_view().skip(j + 1));
        }
        if str_eq(attrs[j].0.as_str(), key) {
            return Some(attrs[j].1.clone());
        }
        j = j + 1;
    }
    proof {
        assert(attrs.deep_view().skip(n as int).len() == 0);
    }
    None
}

/// Some attribute has the given local name and value.
fn has_attr_str(attrs: &Vec<(String, String)>, key: &str, value: &str) -> (r: bool)
    ensures
        r == has_attr(attrs.deep_view(), key@, value@),
{
    let n = attrs.len();
    let mut j: usize = 0;
    while j < n
        invariant
            n == attrs@.len(),
            j <= n,
            forall|k: int| 0 <= k < j ==> attrs.deep_view()[k] != (key@, value@),
        decreases n - j,
    {
        if str_eq(attrs[j].0.as_str(), key) && str_eq(attrs[j].1.as_str(), value) {
            proof {
                assert(attrs.deep_view()[j as int] == (key@, value@));
            }
            return true;
        }
        proof {
            if attrs.deep_view()[j as int] == (key@, value@) {
                assert(attrs@[j as int].0@ == key@ && attrs@[j as int].1@ == value@);
                assert(false);
            }
        }
        j = j + 1;
    }
    false
}

/// Parses the reduced event stream of a metadata answer into its paper
/// records.
pub fn parse_arxiv_entries(events: &Vec<XmlNode>) -> (r: Result<Vec<Arxiv>, ArxivError>)
    ensures
        r is Ok <==> arxiv_entries(events.deep_view()) is Some,
        r matches Ok(v) ==> Some(v.deep_view()) == arxiv_entries(events.deep_view()),
        r matches Err(e) ==> e == ArxivError::Malformed,
{
    let ghost ev = events.deep_view();
    let n = events.len();
    let mut cur = Arxiv::new();
    let mut out: Vec<Arxiv> = Vec::new();
    let mut i: usize = 0;
    proof {
        assert(ev.len() == n);
        assert(out.deep_view() =~= Seq::<ArxivV>::empty());
    }
    while i < n
        invariant
            n == events@.len(),
            ev == events.deep_view(),
            ev.len() == n,
            i <= n,
            arxiv_entries(ev) == parse_entries(ev, i as int, cur@, out.deep_view()),
        decreases n - i,
    {
        let ghost cur_prev = cur@;
        let ghost out_prev = out.deep_view();
        proof {
            assert(ev[i as int] == events@[i as int]@);
        }
        match &events[i] {
            XmlNode::Fault => {
                return Err(ArxivError::Malformed);
            },
            XmlNode::Text(_) => {
                i = i + 1;
            },
            XmlNode::Other => {
                i = i + 1;
            },
            XmlNode::End(name) => {
                if str_eq(name.as_str(), "entry") {
                    out.push(cur.duplicate());
                    proof {
                        assert(out.deep_view() =~= out_prev.push(cur_prev));
                    }
                    i = i + 1;
                } else if str_eq(name.as_str(), "feed") {
                    return Ok(out);
                } else {
                    i = i + 1;
                }
            },
            XmlNode::Start(name, attrs) => {
                if str_eq(name.as_str(), "entry") {
                    cur = Arxiv::new();
                    i = i + 1;
                } else if str_eq(name.as_str(), "id") || str_eq(name.as_str(), "updated")
                    || str_eq(name.as_str(), "published") || str_eq(name.as_str(), "title")
                    || str_eq(name.as_str(), "summary") || str_eq(name.as_str(), "comment") {
                    if i + 1 >= n {
                        return Err(ArxivError::Malformed);
                    }
                    if let XmlNode::Text(t) = &events[i + 1] {
                        proof {
                            assert(ev[i + 1] == events@[i + 1]@);
                        }
                        if str_eq(name.as_str(), "id") {
                            cur.id = t.clone();
                            proof {
                                assert(cur@ == (ArxivV { id: t@, ..cur_prev }));
                            }
                        } else if str_eq(name.as_str(), "updated") {
                            cur.updated = t.clone();
                            proof {
                                assert(cur@ == (ArxivV { updated: t@, ..cur_prev }));
                            }
                        } else if str_eq(name.as_str(), "published") {
                            cur.published = t.clone();
                            proof {
                                assert(cur@ == (ArxivV { published: t@, ..cur_prev }));
                            }
                        } else if str_eq(name.as_str(), "title") {
                            cur.title = t.clone();
                            proof {
                                assert(cur@ == (ArxivV { title: t@, ..cur_prev }));
                            }
                        } else if str_eq(name.as_str(), "summary") {
                            cur.summary = t.clone();
                            proof {
                                assert(cur@ == (ArxivV { summary: t@, ..cur_prev }));
                            }
                        } else {
                            cur.comment = Some(t.clone());
                            proof {
                                assert(cur@ == (ArxivV { comment: Some(t@), ..cur_prev }));
                            }
                        }
                    }
                    i = i + 2;
                } else if str_eq(name.as_str(), "author") {
                    if n - i <= 3 {
                        return Err(ArxivError::Malformed);
                    }
                    if let XmlNode::Text(t) = &events[i + 3] {
                        proof {
                            assert(ev[i + 3] == events@[i + 3]@);
                        }
                        cur.authors.push(t.clone());
                        proof {
                            assert(cur.authors.deep_view() =~= cur_prev.authors.push(t@));
                            assert(cur@ == (ArxivV {
                                authors: cur_prev.authors.push(t@),
                                ..cur_prev
                            }));
                        }
                    }
                    i = i + 4;
                } else if str_eq(name.as_str(), "primary_category") {
                    if let Some(v) = find_attr_str(attrs, "term") {
                        cur.primary_category = v.clone();
                        cur.primary_category_name = get_category_code_name(v.as_str());
                        proof {
                            assert(cur@ == (ArxivV {
                                primary_category: v@,
                                primary_category_name: category_name_spec(v@),
                                ..cur_prev
                            }));
                        }
                    }
                    i = i + 1;
                } else if str_eq(name.as_str(), "category") {
                    if let Some(v) = find_attr_str(attrs, "term") {
                        cur.categories.push(v.clone());
                        cur.category_names.push(get_category_code_name(v.as_str()));
                        proof {
                            assert(cur.categories.deep_view() =~= cur_prev.categories.push(v@));
                            assert(cur.category_names.deep_view() =~= cur_prev.category_names.push(
                                category_name_spec(v@),
                            ));
                            assert(cur@ == (ArxivV {
                                categories: cur_prev.categories.push(v@),
                                category_names: cur_prev.category_names.push(
                                    category_name_spec(v@),
                                ),
                                ..cur_prev
                            }));
                        }
                    }
                    i = i + 1;
                } else if str_eq(name.as_str(), "link") {
                    let is_pdf = has_attr_str(attrs, "title", "pdf");
                    let is_html = has_attr_str(attrs, "type", "text/html");
                    let href = find_attr_str(attrs, "href");
                    if let Some(h) = &href {
                        if is_pdf {
                            let mut u = replace_first(h.as_str(), "http", "https");
                            u.append(".pdf");
                            cur.pdf_url = u;
                        }
                        if is_html {
                            cur.html_url = replace_first(h.as_str(), "http", "https");
                        }
                    }
                    proof {
                        assert(cur@ == linked(cur_prev, attrs.deep_view()));
                    }
                    i = i + 1;
                } else {
                    i = i + 1;
                }
            },
        }
    }
    proof {
        assert(parse_entries(ev, i as int, cur@, out.deep_view()) is None);
    }
    Err(ArxivError::Malformed)
}

/// Parses the metadata API's raw XML answer into its paper records.
pub fn parse_arxiv_data(body: &str) -> (r: Result<Vec<Arxiv>, ArxivError>)
    ensures
        r is Ok <==> arxiv_entries(xml_events_of(body@)) is Some,
        r matches Ok(v) ==> Some(v.deep_view()) == arxiv_entries(xml_events_of(body@)),
        r matches Err(e) ==> e == ArxivError::Malformed,
{
    let events = xml_events(body);
    parse_arxiv_entries(&events)
}

/// The first paper record of a fetch's answer: what a query by id resolves
/// to, with an empty feed rejected.
pub fn first_arxiv(results: Vec<Arxiv>) -> (r: Result<Arxiv, ArxivError>)
    ensures
        r is Ok <==> results@.len() > 0,
        r matches Ok(a) ==> a == results@[0],
        r matches Err(e) ==> e == ArxivError::NoResults,
{
    let mut results = results;
    if results.len() == 0 {
        Err(ArxivError::NoResults)
    } else {
        let first = results.remove(0);
        Ok(first)
    }
}

/// A builder of queries: every setter leaves the other fields as they are.
#[derive(Debug, Clone, PartialEq, Eq)]
pub struct ArxivQueryBuilder {
    pub base_url: String,
    pub search_query: String,
    pub id_list: String,
    pub start: Option<i32>,
    pub max_results: Option<i32>,
    pub sort_by: String,
    pub sort_order: String,
}

impl ArxivQueryBuilder {
    /// A fresh builder: the metadata API's query endpoint, nothing else set.
    pub fn new() -> (r: ArxivQueryBuilder)
        ensures
            r.base_url@ == "http://export.arxiv.org/api/query?"@,
            r.search_query@ == Seq::<char>::empty(),
            r.id_list@ == Seq::<char>::empty(),
            r.start is None,
            r.max_results is None,
            r.sort_by@ == Seq::<char>::empty(),
            r.sort_order@ == Seq::<char>::empty(),
    {
        let mut base_url = String::new();
        base_url.append("http://export.arxiv.org/api/query?");
        ArxivQueryBuilder {
            base_url,
            search_query: String::new(),
            id_list: String::new(),
            start: None,
            max_results: None,
            sort_by: String::new(),
            sort_order: String::new(),
        }
    }

    /// Builds the query this builder describes.
    pub fn build(&self) -> (r: ArxivQuery)
        ensures
            r.base_url == self.base_url,
            r.search_query == self.search_query,
            r.id_list == self.id_list,
            r.start == self.start,
            r.max_results == self.max_results,
            r.sort_by == self.sort_by,
            r.sort_order == self.sort_order,
    {
        ArxivQuery {
            base_url: self.base_url.clone(),
            search_query: self.search_query.clone(),
            id_list: self.id_list.clone(),
            start: self.start,
            max_results: self.max_results,
            sort_by: self.sort_by.clone(),
            sort_order: self.sort_order.clone(),
        }
    }

    /// The builder with `search_query` replaced.
    pub fn search_query(&self, search_query: &str) -> (r: ArxivQueryBuilder)
        ensures
            r.search_query@ == search_query@,
            r.base_url == self.base_url,
            r.id_list == self.id_list,
            r.start == self.start,
            r.max_results == self.max_results,
            r.sort_by == self.sort_by,
            r.sort_order == self.sort_order,
    {
        ArxivQueryBuilder { search_query: search_query.to_owned(), ..self.dup() }
    }

    /// The builder with `id_list` replaced.
    pub fn id_list(&self, id_list: &str) -> (r: ArxivQueryBuilder)
        ensures
            r.id_list@ == id_list@,
            r.base_url == self.base_url,
            r.search_query == self.search_query,
            r.start == self.start,
            r.max_results == self.max_results,
            r.sort_by == self.sort_by,
            r.sort_order == self.sort_order,
    {
        ArxivQueryBuilder { id_list: id_list.to_owned(), ..self.dup() }
    }

    /// The builder with `start` set.
    pub fn start(&self, start: i32) -> (r: ArxivQueryBuilder)
        ensures
            r.start == Some(start),
            r.base_url == self.base_url,
            r.search_query == self.search_query,
            r.id_list == self.id_list,
            r.max_results == self.max_results,
            r.sort_by == self.sort_by,
            r.sort_order == self.sort_order,
    {
        ArxivQueryBuilder { start: Some(start), ..self.dup() }
    }

    /// The builder with `max_results` set.
    pub fn max_results(&self, max_results: i32) -> (r: ArxivQueryBuilder)
        ensures
            r.max_results == Some(max_results),
            r.base_url == self.base_url,
            r.search_query == self.search_query,
            r.id_list == self.id_list,
            r.start == self.start,
            r.sort_by == self.sort_by,
            r.sort_order == self.sort_order,
    {
        ArxivQueryBuilder { max_results: Some(max_results), ..self.dup() }
    }

    /// The builder with `sort_by` replaced.
    pub fn sort_by(&self, sort_by: &str) -> (r: ArxivQueryBuilder)
        ensures
            r.sort_by@ == sort_by@,
            r.base_url == self.base_url,
            r.search_query == self.search_query,
            r.id_list == self.id_list,
            r.start == self.start,
            r.max_results == self.max_results,
            r.sort_order == self.sort_order,
    {
        ArxivQueryBuilder { sort_by: sort_by.to_owned(), ..self.dup() }
    }

    /// The builder with `sort_order` replaced.
    pub fn sort_order(&self, sort_order: &str) -> (r: ArxivQueryBuilder)
        ensures
            r.sort_order@ == sort_order@,
            r.base_url == self.base_url,
            r.search_query == self.search_query,
            r.id_list == self.id_list,
            r.start == self.start,
            r.max_results == self.max_results,
            r.sort_by == self.sort_by,
    {
        ArxivQueryBuilder { sort_order: sort_order.to_owned(), ..self.dup() }
    }

    /// An equal copy of the builder.
    fn dup(&self) -> (r: ArxivQueryBuilder)
        ensures
            r == *self,
    {
        ArxivQueryBuilder {
            base_url: self.base_url.clone(),
            search_query: self.search_query.clone(),
            id_list: self.id_list.clone(),
            start: self.start,
            max_results: self.max_results,
            sort_by: self.sort_by.clone(),
            sort_order: self.sort_order.clone(),
        }
    }
}

} // verus!
