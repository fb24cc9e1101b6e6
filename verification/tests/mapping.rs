use inspire_feed::mapper::{author_of, description_of, link_of, map_hit, title_of};
use inspire_feed::model::{Abstract, Author, Hit, Links, Metadata, Title};
use inspire_feed::pubdate::pub_date_of;

fn empty_metadata() -> Metadata {
    Metadata {
        title: None,
        authors: None,
        abstracts: None,
        titles: None,
        citation_count: None,
        control_number: None,
    }
}

fn empty_links() -> Links {
    Links { json: None, latex_eu: None, latex_us: None, bibtex: None }
}

fn empty_hit() -> Hit {
    Hit { metadata: empty_metadata(), links: empty_links(), created: None }
}

#[test]
fn title_prefers_structured() {
    let mut m = empty_metadata();
    m.titles = Some(vec![Title { title: Some("Structured".to_string()) }]);
    m.title = Some(vec!["Legacy".to_string()]);
    assert_eq!(title_of(&m), "Structured");
}

#[test]
fn title_falls_back_to_legacy() {
    let mut m = empty_metadata();
    m.title = Some(vec!["Legacy".to_string()]);
    assert_eq!(title_of(&m), "Legacy");
}

#[test]
fn title_structured_without_value_falls_back_to_legacy() {
    let mut m = empty_metadata();
    m.titles = Some(vec![Title { title: None }]);
    m.title = Some(vec!["Legacy".to_string()]);
    assert_eq!(title_of(&m), "Legacy");
}

#[test]
fn title_missing_everywhere_uses_fallback() {
    assert_eq!(title_of(&empty_metadata()), "No Title");
}

#[test]
fn link_from_control_number() {
    let mut h = empty_hit();
    h.metadata.control_number = Some(42);
    assert_eq!(link_of(&h), "https://inspirehep.net/literature/42");
}

#[test]
fn link_from_largest_control_number() {
    let mut h = empty_hit();
    h.metadata.control_number = Some(u32::MAX);
    assert_eq!(link_of(&h), "https://inspirehep.net/literature/4294967295");
}

#[test]
fn link_falls_back_to_json_link() {
    let mut h = empty_hit();
    h.links.json = Some("https://example.org/record.json".to_string());
    assert_eq!(link_of(&h), "https://example.org/record.json");
}

#[test]
fn link_missing_everywhere_uses_site_root() {
    assert_eq!(link_of(&empty_hit()), "https://inspirehep.net");
}

#[test]
fn description_from_first_abstract() {
    let mut m = empty_metadata();
    m.abstracts = Some(vec![
        Abstract { source: Some("arXiv".to_string()), value: Some("First abstract.".to_string()) },
        Abstract { source: None, value: Some("Second abstract.".to_string()) },
    ]);
    assert_eq!(description_of(&m), "First abstract.");
}

#[test]
fn description_absent_uses_fallback() {
    assert_eq!(description_of(&empty_metadata()), "No abstract available.");
}

#[test]
fn description_empty_list_uses_fallback() {
    let mut m = empty_metadata();
    m.abstracts = Some(vec![]);
    assert_eq!(description_of(&m), "No abstract available.");
}

#[test]
fn authors_absent_gives_unknown() {
    assert_eq!(author_of(&empty_metadata()), "Unknown Authors");
}

#[test]
fn authors_skip_missing_names() {
    let mut m = empty_metadata();
    m.authors = Some(vec![
        Author { full_name: Some("A. Einstein".to_string()) },
        Author { full_name: None },
        Author { full_name: Some("N. Bohr".to_string()) },
    ]);
    assert_eq!(author_of(&m), "A. Einstein, N. Bohr");
}

#[test]
fn authors_single_name_has_no_separator() {
    let mut m = empty_metadata();
    m.authors = Some(vec![Author { full_name: Some("P. Dirac".to_string()) }]);
    assert_eq!(author_of(&m), "P. Dirac");
}

#[test]
fn authors_without_any_name_give_unknown() {
    let mut m = empty_metadata();
    m.authors = Some(vec![Author { full_name: None }, Author { full_name: None }]);
    assert_eq!(author_of(&m), "Unknown Authors");
}

#[test]
fn pub_date_renders_parsed_timestamp() {
    let created = Some("2020-01-02T03:04:05Z".to_string());
    assert_eq!(pub_date_of(&created), "Thu, 02 Jan 2020 03:04:05 +0000");
}

#[test]
fn pub_date_absent_renders_epoch() {
    assert_eq!(pub_date_of(&None), "Thu, 01 Jan 1970 00:00:00 +0000");
}

#[test]
fn pub_date_unparsable_renders_epoch() {
    let created = Some("not a timestamp".to_string());
    assert_eq!(pub_date_of(&created), "Thu, 01 Jan 1970 00:00:00 +0000");
}

#[test]
fn map_hit_of_empty_record_has_all_fields_non_empty() {
    let item = map_hit(&empty_hit());
    assert_eq!(item.title, "No Title");
    assert_eq!(item.link, "https://inspirehep.net");
    assert_eq!(item.description, "No abstract available.");
    assert_eq!(item.author, "Unknown Authors");
    assert_eq!(item.pub_date, "Thu, 01 Jan 1970 00:00:00 +0000");
}

#[test]
fn map_hit_of_full_record_keeps_every_source_value() {
    let mut h = empty_hit();
    h.metadata.titles = Some(vec![Title { title: Some("Quantum Gravity".to_string()) }]);
    h.metadata.control_number = Some(7);
    h.metadata.abstracts =
        Some(vec![Abstract { source: None, value: Some("A study.".to_string()) }]);
    h.metadata.authors = Some(vec![Author { full_name: Some("E. Noether".to_string()) }]);
    h.created = Some("1999-12-31T23:59:59Z".to_string());
    let item = map_hit(&h);
    assert_eq!(item.title, "Quantum Gravity");
    assert_eq!(item.link, "https://inspirehep.net/literature/7");
    assert_eq!(item.description, "A study.");
    assert_eq!(item.author, "E. Noether");
    assert_eq!(item.pub_date, "Fri, 31 Dec 1999 23:59:59 +0000");
}
