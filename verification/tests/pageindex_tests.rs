use agent_tools::json::JsonValue;
use agent_tools::pageindex::{PageIndexNode, PageIndexRequest, PageIndexTool, SectionSource, TreeSource};

fn node(id: &str, title: &str, pages: (u32, u32), children: Vec<PageIndexNode>) -> PageIndexNode {
    PageIndexNode {
        id: id.to_string(),
        title: title.to_string(),
        page_start: pages.0,
        page_end: pages.1,
        summary: format!("{} summary", title),
        children,
    }
}

fn args(pairs: &[(&str, &str)]) -> JsonValue {
    JsonValue::Object(pairs.iter().map(|(k, v)| (k.to_string(), JsonValue::Str(v.to_string()))).collect())
}

/// The outline of `document_id` as the tool loads it, the file on disk
/// having come to `source`.
fn load(document_id: &str, source: TreeSource) -> Result<Vec<PageIndexNode>, agent_tools::framework::ToolError> {
    PageIndexTool::sanitize_id(document_id)?;
    PageIndexTool::load_tree_result(document_id, source)
}

fn get_tree(document_id: &str, source: TreeSource) -> String {
    PageIndexTool::get_tree_text(document_id, load(document_id, source))
}

fn read_node(document_id: &str, node_id: &str, tree: TreeSource, section: SectionSource) -> String {
    let found = PageIndexTool::locate_node(document_id, node_id, load(document_id, tree));
    let text = match found {
        Err(e) => Err(e),
        Ok(_) => PageIndexTool::section_result(section),
    };
    PageIndexTool::read_node_text(document_id, node_id, text)
}

#[test]
fn get_tree_renders_the_stored_outline() {
    let tree = vec![node("n1", "Chapter 1", (1, 20), vec![node("n1.1", "Section 1.1", (1, 10), vec![])])];
    let result = get_tree("doc-a", TreeSource::Parsed(tree));
    assert!(result.starts_with("=== Table of Contents: doc-a ==="));
    assert!(result.contains("- [n1] Chapter 1 (pages 1-20): Chapter 1 summary"));
    assert!(result.contains("  - [n1.1] Section 1.1 (pages 1-10): Section 1.1 summary"));
}

#[test]
fn get_tree_reports_an_empty_index_a_missing_one_and_an_unparseable_one() {
    assert_eq!(get_tree("doc-empty", TreeSource::Parsed(vec![])), "Document 'doc-empty' has an empty index.");
    let missing = get_tree("no-such-document", TreeSource::Absent);
    assert!(
        missing.starts_with(
            "Error loading tree for document 'no-such-document': No index found for document 'no-such-document'."
        ),
        "{}",
        missing
    );
    let unparseable = get_tree("doc-broken", TreeSource::Unparseable);
    assert!(unparseable.contains("Failed to parse tree.json"), "{}", unparseable);
}

#[test]
fn a_traversing_document_id_is_rejected() {
    let result = get_tree("../../etc", TreeSource::Absent);
    assert!(result.contains("Invalid id: ../../etc"), "{}", result);
}

#[test]
fn read_node_reports_an_unknown_node_and_an_unreadable_source() {
    let tree = || TreeSource::Parsed(vec![node("n1", "Chapter 1", (1, 2), vec![])]);
    let unknown = read_node("doc-b", "n9", tree(), SectionSource::Unreadable);
    assert!(unknown.contains("Node 'n9' not found in document"), "{}", unknown);
    assert!(unknown.contains("Use 'get_tree' to see valid node ids."));

    let missing_pdf = read_node("doc-b", "n1", tree(), SectionSource::Unreadable);
    assert!(missing_pdf.contains("Failed to read source PDF"), "{}", missing_pdf);

    let bad_pdf = read_node(
        "doc-b",
        "n1",
        tree(),
        SectionSource::ExtractionFailed("not a PDF".to_string()),
    );
    assert!(bad_pdf.contains("Failed to extract section text"), "{}", bad_pdf);
}

#[test]
fn bad_arguments_are_rejected() {
    let message = |a: Option<&JsonValue>| PageIndexTool::parse_request(a).err().unwrap().to_string();
    assert_eq!(message(None), "Failed to parse tool call arguments");
    assert_eq!(message(Some(&args(&[("document_id", "d1")]))), "Missing required parameter: action");
    assert_eq!(message(Some(&args(&[("action", "get_tree")]))), "Missing required parameter: document_id");
    assert_eq!(
        message(Some(&args(&[("action", "read_node"), ("document_id", "d1")]))),
        "Missing required parameter for read_node: node_id"
    );
    assert_eq!(
        message(Some(&args(&[("action", "delete_tree"), ("document_id", "d1")]))),
        "Invalid action: delete_tree"
    );
}

#[test]
fn a_section_is_read_from_its_page_range() {
    let tree = TreeSource::Parsed(vec![node("n1", "Chapter 1", (3, 7), vec![])]);
    assert_eq!(PageIndexTool::locate_node("doc-c", "n1", load("doc-c", tree)).ok(), Some((3, 7)));
    let text = read_node(
        "doc-c",
        "n1",
        TreeSource::Parsed(vec![node("n1", "Chapter 1", (3, 7), vec![])]),
        SectionSource::Extracted("Body".to_string()),
    );
    assert_eq!(text, "=== Section: n1 ===\n\nBody");
    match PageIndexTool::parse_request(Some(&args(&[("action", "read_node"), ("document_id", "d1"), ("node_id", "n2")])))
    {
        Ok(PageIndexRequest::ReadNode { document_id, node_id }) => {
            assert_eq!(document_id, "d1");
            assert_eq!(node_id, "n2");
        },
        _ => panic!("expected a read_node request"),
    }
}
