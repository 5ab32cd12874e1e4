use linkstitcher::arxiv::{first_arxiv, parse_arxiv_data, Arxiv, ArxivError, ArxivQueryBuilder};
use linkstitcher::categories::get_category_code_name;

#[test]
fn builder_defaults_and_setters() {
    let b = ArxivQueryBuilder::new();
    assert_eq!(b.base_url, "http://export.arxiv.org/api/query?");
    let b = b
        .search_query("cat:cs.CL")
        .id_list("1234.5678")
        .start(0)
        .max_results(5)
        .sort_by("submittedDate")
        .sort_order("descending");
    let q = b.build();
    assert_eq!(q.search_query, "cat:cs.CL");
    assert_eq!(q.id_list, "1234.5678");
    assert_eq!(q.start, Some(0));
    assert_eq!(q.max_results, Some(5));
    assert_eq!(q.sort_by, "submittedDate");
    assert_eq!(q.sort_order, "descending");
}

#[test]
fn query_url_with_id_only() {
    let q = ArxivQueryBuilder::new().id_list("1234.5678").build();
    assert_eq!(
        q.to_url(),
        "http://export.arxiv.org/api/query?id_list=1234.5678"
    );
}

#[test]
fn query_url_joins_parts_in_order() {
    let q = ArxivQueryBuilder::new()
        .search_query("cat:cs.CL")
        .start(0)
        .max_results(25)
        .build();
    assert_eq!(
        q.to_url(),
        "http://export.arxiv.org/api/query?search_query=cat:cs.CL&start=0&max_results=25"
    );
}

#[test]
fn query_url_with_negative_start() {
    let q = ArxivQueryBuilder::new().start(-3).build();
    assert_eq!(q.to_url(), "http://export.arxiv.org/api/query?start=-3");
}

const SAMPLE_FEED: &str = "<feed>\n<entry>\n<id>http://arxiv.org/abs/1234.5678v1</id>\n<updated>2024-01-02</updated>\n<published>2024-01-01</published>\n<title>Sample Title</title>\n<summary>An abstract.</summary>\n<author>\n<name>Ada</name>\n</author>\n<primary_category term=\"cs.AI\"/>\n<category term=\"cs.AI\"/>\n<category term=\"xx.YY\"/>\n<link title=\"pdf\" href=\"http://arxiv.org/pdf/1234.5678v1\"/>\n<link type=\"text/html\" href=\"http://arxiv.org/abs/1234.5678v1\"/>\n<comment>Nice</comment>\n</entry>\n</feed>";

#[test]
fn parse_feed_entry() {
    let arxivs = parse_arxiv_data(SAMPLE_FEED).unwrap();
    assert_eq!(arxivs.len(), 1);
    let a = &arxivs[0];
    assert_eq!(a.id, "http://arxiv.org/abs/1234.5678v1");
    assert_eq!(a.updated, "2024-01-02");
    assert_eq!(a.published, "2024-01-01");
    assert_eq!(a.title, "Sample Title");
    assert_eq!(a.summary, "An abstract.");
    assert_eq!(a.authors, vec!["Ada".to_string()]);
    assert_eq!(a.primary_category, "cs.AI");
    assert_eq!(a.primary_category_name, "Artificial Intelligence");
    assert_eq!(a.categories, vec!["cs.AI".to_string(), "xx.YY".to_string()]);
    assert_eq!(
        a.category_names,
        vec!["Artificial Intelligence".to_string(), "xx.YY".to_string()]
    );
    assert_eq!(a.pdf_url, "https://arxiv.org/pdf/1234.5678v1.pdf");
    assert_eq!(a.html_url, "https://arxiv.org/abs/1234.5678v1");
    assert_eq!(a.comment, Some("Nice".to_string()));
}

#[test]
fn parse_two_entries() {
    let feed = "<feed><entry><title>A</title></entry><entry><title>B</title></entry></feed>";
    let arxivs = parse_arxiv_data(feed).unwrap();
    assert_eq!(arxivs.len(), 2);
    assert_eq!(arxivs[0].title, "A");
    assert_eq!(arxivs[1].title, "B");
    assert_eq!(arxivs[0].id, "");
}

#[test]
fn parse_rejects_malformed_answer() {
    assert_eq!(
        parse_arxiv_data("<feed><entry>"),
        Err(ArxivError::Malformed)
    );
    assert_eq!(parse_arxiv_data("no xml here"), Err(ArxivError::Malformed));
}

#[test]
fn parse_rejects_document_without_feed_end() {
    // Well-formed XML, but not a feed: the fold never sees the closing feed
    // tag.
    assert_eq!(
        parse_arxiv_data("<other>text</other>"),
        Err(ArxivError::Malformed)
    );
}

#[test]
fn first_of_results() {
    let mut a = Arxiv::new();
    a.title = "A".to_string();
    let mut b = Arxiv::new();
    b.title = "B".to_string();
    assert_eq!(first_arxiv(vec![a.clone(), b]).unwrap().title, "A");
    assert_eq!(first_arxiv(vec![]), Err(ArxivError::NoResults));
}

#[test]
fn category_names_known_and_unknown() {
    assert_eq!(
        get_category_code_name("cs.AI"),
        "Artificial Intelligence".to_string()
    );
    assert_eq!(get_category_code_name("math.CT"), "Category Theory".to_string());
    assert_eq!(get_category_code_name("quant-ph"), "Quantum Physics".to_string());
    assert_eq!(
        get_category_code_name("physics.flu-dyn"),
        "Fluid Dynamics".to_string()
    );
    assert_eq!(get_category_code_name("stat.ML"), "Machine Learning".to_string());
    assert_eq!(get_category_code_name("made.UP"), "made.UP".to_string());
}
