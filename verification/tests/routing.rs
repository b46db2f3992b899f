use toshi_router::path::{same_bytes, split, SLASH};
use toshi_router::routes::{Method, Resource, RouteError, RouteTable};
use toshi_router::template::{Segment, Template, TemplateError, CLOSE_BRACE, OPEN_BRACE};

fn template(text: &str) -> Template {
    Template::parse(text).unwrap()
}

fn service_table() -> RouteTable {
    let mut table = RouteTable::new();
    table.register(Method::Get, template("/{index}/_search"), Resource::Search).unwrap();
    table.register(Method::Post, template("/{index}/_search"), Resource::Search).unwrap();
    table.register(Method::Put, template("/{index}"), Resource::Index).unwrap();
    table.register(Method::Post, template("/{index}"), Resource::Index).unwrap();
    table.register(Method::Post, template("/{index}/_bulk"), Resource::Bulk).unwrap();
    table.register(Method::Get, template("/{index}/_summary"), Resource::Summary).unwrap();
    table.register(Method::Get, template("/"), Resource::Root).unwrap();
    table
}

#[test]
fn separator_and_braces_are_ascii() {
    assert_eq!(SLASH, b'/');
    assert_eq!(OPEN_BRACE, b'{');
    assert_eq!(CLOSE_BRACE, b'}');
}

#[test]
fn split_cuts_at_every_slash() {
    assert_eq!(split(b""), vec![b"".to_vec()]);
    assert_eq!(split(b"/"), vec![b"".to_vec(), b"".to_vec()]);
    assert_eq!(split(b"abc"), vec![b"abc".to_vec()]);
    assert_eq!(
        split(b"/a/bc"),
        vec![b"".to_vec(), b"a".to_vec(), b"bc".to_vec()]
    );
    assert_eq!(
        split(b"a//b/"),
        vec![b"a".to_vec(), b"".to_vec(), b"b".to_vec(), b"".to_vec()]
    );
}

#[test]
fn split_gives_one_segment_more_than_slashes() {
    let path = b"/x/yy//zzz/";
    let slashes = path.iter().filter(|b| **b == b'/').count();
    let parts = split(path);
    assert_eq!(parts.len(), slashes + 1);
    assert!(parts.iter().all(|part| !part.contains(&b'/')));
}

#[test]
fn same_bytes_compares_contents() {
    assert!(same_bytes(b"", b""));
    assert!(same_bytes(b"abc", b"abc"));
    assert!(!same_bytes(b"abc", b"abd"));
    assert!(!same_bytes(b"abc", b"ab"));
    assert!(!same_bytes(b"", b"a"));
}

#[test]
fn segment_text_without_braces_is_a_literal() {
    assert!(matches!(Segment::parse(b"_search"), Some(Segment::Literal(text)) if text == b"_search"));
    assert!(matches!(Segment::parse(b""), Some(Segment::Literal(text)) if text.is_empty()));
}

#[test]
fn segment_text_in_braces_is_a_parameter() {
    assert!(matches!(Segment::parse(b"{index}"), Some(Segment::Param)));
    assert!(matches!(Segment::parse(b"{i}"), Some(Segment::Param)));
}

#[test]
fn segment_text_with_stray_braces_is_refused() {
    assert!(Segment::parse(b"{}").is_none());
    assert!(Segment::parse(b"{").is_none());
    assert!(Segment::parse(b"}").is_none());
    assert!(Segment::parse(b"a{b}").is_none());
    assert!(Segment::parse(b"{a}b").is_none());
    assert!(Segment::parse(b"{a}{b}").is_none());
    assert!(Segment::parse(b"{{a}}").is_none());
    assert!(Segment::parse(b"{a").is_none());
}

#[test]
fn literal_accepts_itself_only() {
    let literal = Segment::parse(b"_bulk").unwrap();
    assert!(literal.accepts(b"_bulk"));
    assert!(!literal.accepts(b"_bulk2"));
    assert!(!literal.accepts(b"_bul"));
    assert!(!literal.accepts(b""));
}

#[test]
fn parameter_accepts_any_segment_but_the_empty_one() {
    let param = Segment::parse(b"{index}").unwrap();
    assert!(param.accepts(b"wikipedia"));
    assert!(param.accepts(b"_search"));
    assert!(!param.accepts(b""));
}

#[test]
fn segments_overlap_where_one_segment_fits_both() {
    let a = Segment::parse(b"a").unwrap();
    let b = Segment::parse(b"b").unwrap();
    let empty = Segment::parse(b"").unwrap();
    let param = Segment::parse(b"{x}").unwrap();
    assert!(a.overlaps(&a));
    assert!(!a.overlaps(&b));
    assert!(a.overlaps(&param));
    assert!(param.overlaps(&a));
    assert!(param.overlaps(&param));
    assert!(!empty.overlaps(&param));
    assert!(!param.overlaps(&empty));
    assert!(empty.overlaps(&empty));
}

#[test]
fn template_must_begin_with_a_slash() {
    assert_eq!(Template::parse("").unwrap_err(), TemplateError::NotAbsolute);
    assert_eq!(Template::parse("index").unwrap_err(), TemplateError::NotAbsolute);
    assert_eq!(Template::parse("{index}/").unwrap_err(), TemplateError::NotAbsolute);
}

#[test]
fn template_with_a_bad_segment_is_malformed() {
    assert_eq!(Template::parse("/{}").unwrap_err(), TemplateError::Malformed);
    assert_eq!(Template::parse("/a/{b").unwrap_err(), TemplateError::Malformed);
    assert_eq!(Template::parse("/a}/b").unwrap_err(), TemplateError::Malformed);
    assert_eq!(Template::parse("/{a}{b}").unwrap_err(), TemplateError::Malformed);
    assert_eq!(Template::parse("/x{a}").unwrap_err(), TemplateError::Malformed);
}

#[test]
fn template_counts_the_leading_empty_segment() {
    assert_eq!(template("/").len(), 2);
    assert_eq!(template("/{index}").len(), 2);
    assert_eq!(template("/{index}/_search").len(), 3);
    assert_eq!(template("/a/b/c/").len(), 5);
}

#[test]
fn template_accepts_exactly_its_shape() {
    let search = template("/{index}/_search");
    assert!(search.accepts("/wikipedia/_search"));
    assert!(search.accepts("/no_such_index/_search"));
    assert!(!search.accepts("/wikipedia/_searches"));
    assert!(!search.accepts("/wikipedia/_search/"));
    assert!(!search.accepts("/wikipedia"));
    assert!(!search.accepts("//_search"));
    assert!(!search.accepts("wikipedia/_search"));
    assert!(!search.accepts("/a/b/_search"));
    assert!(!search.accepts(""));
}

#[test]
fn root_template_accepts_the_root_path_only() {
    let root = template("/");
    assert!(root.accepts("/"));
    assert!(!root.accepts(""));
    assert!(!root.accepts("//"));
    assert!(!root.accepts("/a"));
}

#[test]
fn template_accepts_parts_already_cut() {
    let bulk = template("/{index}/_bulk");
    assert!(bulk.accepts_parts(&split(b"/idx/_bulk")));
    assert!(!bulk.accepts_parts(&split(b"/idx/_search")));
    assert!(!bulk.accepts_parts(&vec![b"idx".to_vec(), b"_bulk".to_vec()]));
}

#[test]
fn templates_overlap_segment_by_segment() {
    assert!(template("/{a}/x").overlaps(&template("/y/{b}")));
    assert!(template("/{a}").overlaps(&template("/{b}")));
    assert!(template("/a/b").overlaps(&template("/a/b")));
    assert!(!template("/a/b").overlaps(&template("/a/c")));
    assert!(!template("/{a}").overlaps(&template("/")));
    assert!(!template("/{a}").overlaps(&template("/{a}/b")));
    assert!(!template("/{a}/_search").overlaps(&template("/{a}/_summary")));
}

#[test]
fn new_table_is_empty() {
    let table = RouteTable::new();
    assert_eq!(table.len(), 0);
    assert_eq!(table.lookup(Method::Get, "/"), None);
}

#[test]
fn table_finds_each_resource() {
    let table = service_table();
    assert_eq!(table.len(), 7);
    assert_eq!(table.lookup(Method::Get, "/"), Some(Resource::Root));
    assert_eq!(table.lookup(Method::Get, "/idx/_search"), Some(Resource::Search));
    assert_eq!(table.lookup(Method::Post, "/idx/_search"), Some(Resource::Search));
    assert_eq!(table.lookup(Method::Put, "/idx"), Some(Resource::Index));
    assert_eq!(table.lookup(Method::Post, "/idx"), Some(Resource::Index));
    assert_eq!(table.lookup(Method::Post, "/idx/_bulk"), Some(Resource::Bulk));
    assert_eq!(table.lookup(Method::Get, "/idx/_summary"), Some(Resource::Summary));
}

#[test]
fn table_matches_method_and_path_exactly() {
    let table = service_table();
    assert_eq!(table.lookup(Method::Delete, "/"), None);
    assert_eq!(table.lookup(Method::Post, "/"), None);
    assert_eq!(table.lookup(Method::Get, "/idx"), None);
    assert_eq!(table.lookup(Method::Get, "/idx/_bulk"), None);
    assert_eq!(table.lookup(Method::Put, "/idx/_search"), None);
    assert_eq!(table.lookup(Method::Get, "/idx/_search/"), None);
    assert_eq!(table.lookup(Method::Get, "/idx/_Search"), None);
    assert_eq!(table.lookup(Method::Get, "/a/b/c/d"), None);
    assert_eq!(table.lookup(Method::Get, ""), None);
    assert_eq!(table.lookup(Method::Head, "/"), None);
    assert_eq!(table.lookup(Method::Options, "/"), None);
    assert_eq!(table.lookup(Method::Patch, "/idx"), None);
    assert_eq!(table.lookup(Method::Trace, "/"), None);
    assert_eq!(table.lookup(Method::Connect, "/"), None);
}

#[test]
fn conflicting_binding_is_refused_and_changes_nothing() {
    let mut table = service_table();
    let refused = table.register(Method::Get, template("/{name}/_search"), Resource::Summary);
    assert_eq!(refused, Err(RouteError::Conflict));
    assert_eq!(table.len(), 7);
    assert_eq!(table.lookup(Method::Get, "/idx/_search"), Some(Resource::Search));

    let refused = table.register(Method::Get, template("/idx/{action}"), Resource::Bulk);
    assert_eq!(refused, Err(RouteError::Conflict));
    assert_eq!(table.len(), 7);
}

#[test]
fn same_template_under_another_method_is_no_conflict() {
    let mut table = service_table();
    assert_eq!(
        table.register(Method::Delete, template("/{index}"), Resource::Index),
        Ok(())
    );
    assert_eq!(table.len(), 8);
    assert_eq!(table.lookup(Method::Delete, "/idx"), Some(Resource::Index));
}

#[test]
fn registration_order_does_not_change_lookups() {
    let mut forward = RouteTable::new();
    forward.register(Method::Get, template("/"), Resource::Root).unwrap();
    forward.register(Method::Get, template("/{index}/_summary"), Resource::Summary).unwrap();
    forward.register(Method::Get, template("/{index}/_search"), Resource::Search).unwrap();
    let mut backward = RouteTable::new();
    backward.register(Method::Get, template("/{index}/_search"), Resource::Search).unwrap();
    backward.register(Method::Get, template("/{index}/_summary"), Resource::Summary).unwrap();
    backward.register(Method::Get, template("/"), Resource::Root).unwrap();
    for path in ["/", "/a/_search", "/a/_summary", "/a", "/a/b", "", "//", "/a/_search/x"] {
        assert_eq!(forward.lookup(Method::Get, path), backward.lookup(Method::Get, path));
        assert_eq!(forward.lookup(Method::Post, path), backward.lookup(Method::Post, path));
    }
}

#[test]
fn paths_beyond_ascii_are_matched_by_their_bytes() {
    let mut table = RouteTable::new();
    table.register(Method::Get, template("/{index}/données"), Resource::Summary).unwrap();
    assert_eq!(table.lookup(Method::Get, "/índice/données"), Some(Resource::Summary));
    assert_eq!(table.lookup(Method::Get, "/índice/donnees"), None);
}
