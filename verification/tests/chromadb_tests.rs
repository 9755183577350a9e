use agent_tools::chromadb::{format_search_results, ChromaDBTool, Collection, KnowledgeRequest, SearchHit};
use agent_tools::json::{JsonNumber, JsonValue};

fn s(t: &str) -> JsonValue {
    JsonValue::Str(t.to_string())
}

fn obj(pairs: Vec<(&str, JsonValue)>) -> JsonValue {
    JsonValue::Object(pairs.into_iter().map(|(k, v)| (k.to_string(), v)).collect())
}

fn collection(name: &str, metadata: &[(&str, &str)]) -> Collection {
    Collection {
        id: format!("{}-id", name),
        name: name.to_string(),
        metadata: if metadata.is_empty() {
            None
        } else {
            Some(metadata.iter().map(|(k, v)| (k.to_string(), v.to_string())).collect())
        },
        count: Some(0),
    }
}

fn tool(collections: Vec<Collection>) -> ChromaDBTool {
    ChromaDBTool::new("http://127.0.0.1:1", collections)
}

/// A hit as a store reply is rendered: the distance with four decimals, and
/// kept when it is at most 1.2.
fn hit(document: &str, distance: Option<f64>, metadata: Option<&str>) -> SearchHit {
    SearchHit {
        document: document.to_string(),
        distance: distance.map(|d| format!("{:.4}", d)),
        metadata: metadata.map(|m| m.to_string()),
        kept: distance.map_or(true, |d| d <= 1.2),
    }
}

#[test]
fn test_function_definition_advertises_each_collection_and_its_metadata() {
    let description = tool(vec![
        collection("notes", &[("embedding_model", "nomic-embed-text")]),
        collection("papers", &[]),
    ])
    .function_description();

    assert!(description.contains("- Name: 'notes', Metadata: embedding_model: nomic-embed-text"));
    assert!(description.contains("- Name: 'papers', Metadata: None"));
    assert!(!description.contains("No collections currently available."));
}

#[test]
fn the_function_description_says_so_when_there_are_no_collections() {
    let description = tool(vec![]).function_description();
    assert!(description.contains("No collections currently available."));
}

#[test]
fn test_format_search_results_renders_each_hit_with_distance_and_metadata() {
    let formatted = format_search_results(&Some(vec![vec![
        hit("first body", Some(0.1234), Some("{\n  \"filename\": \"a.pdf\"\n}")),
        hit("second body", Some(0.5), Some("{\n  \"filename\": \"b.pdf\"\n}")),
    ]]));

    assert!(formatted.contains("=== Document 1 (Distance: 0.1234) ==="));
    assert!(formatted.contains("=== Document 2 (Distance: 0.5000) ==="));
    assert!(formatted.contains("\"filename\": \"a.pdf\""));
    assert!(formatted.contains("Content:\nfirst body"));
    assert!(formatted.contains("Content:\nsecond body"));
}

#[test]
fn test_format_search_results_drops_hits_beyond_the_distance_threshold() {
    let formatted = format_search_results(&Some(vec![vec![
        hit("too far", Some(1.21), None),
        hit("borderline", Some(1.2), None),
    ]]));

    assert!(!formatted.contains("too far"));
    assert!(formatted.contains("=== Document 1 (Distance: 1.2000) ==="));
    assert!(formatted.contains("Content:\nborderline"));
}

#[test]
fn test_format_search_results_says_so_when_everything_is_filtered_out() {
    let formatted = format_search_results(&Some(vec![vec![hit("too far", Some(1.9), None)]]));

    assert_eq!(formatted, "No relevant documents found (similarity threshold: 1.2).");
}

#[test]
fn test_format_search_results_keeps_hits_that_have_no_distance() {
    let formatted = format_search_results(&Some(vec![vec![hit("a body", None, None)]]));

    assert!(formatted.contains("=== Document 1 (Distance: N/A) ==="));
    assert!(formatted.contains("Metadata:\n{}"));
}

#[test]
fn test_format_search_results_says_so_when_there_are_no_documents_at_all() {
    assert_eq!(format_search_results(&None), "No documents found in the collection.");
}

#[test]
fn test_format_search_results_numbers_hits_across_query_batches() {
    let formatted = format_search_results(&Some(vec![
        vec![hit("from first query", Some(0.1), None)],
        vec![hit("from second query", Some(0.2), None)],
    ]));

    assert!(formatted.contains("=== Document 1 (Distance: 0.1000) ==="));
    assert!(formatted.contains("=== Document 2 (Distance: 0.2000) ==="));
}

#[test]
fn a_hit_block_has_its_exact_shape() {
    let formatted = format_search_results(&Some(vec![vec![hit("body", Some(0.25), Some("{}"))]]));
    assert_eq!(formatted, "=== Document 1 (Distance: 0.2500) ===\nMetadata:\n{}\n\nContent:\nbody\n\n");
}

#[test]
fn test_execute_rejects_arguments_that_are_not_json() {
    let err = ChromaDBTool::parse_request(None).err().unwrap();
    assert!(err.to_string().contains("Failed to parse tool call arguments"));
}

#[test]
fn test_execute_requires_an_action() {
    let err = ChromaDBTool::parse_request(Some(&obj(vec![("query", s("anything"))]))).err().unwrap();
    assert_eq!(err.to_string(), "Missing required parameter: action");
}

#[test]
fn test_execute_rejects_an_unknown_action() {
    let err = ChromaDBTool::parse_request(Some(&obj(vec![("action", s("frobnicate"))]))).err().unwrap();
    assert_eq!(err.to_string(), "Invalid action: frobnicate");
}

#[test]
fn test_search_requires_a_query_and_a_collection() {
    let missing_query =
        ChromaDBTool::parse_request(Some(&obj(vec![("action", s("search")), ("collection", s("notes"))])))
            .err()
            .unwrap();
    assert_eq!(missing_query.to_string(), "Missing required parameter for search: query");

    let missing_collection = ChromaDBTool::parse_request(Some(&obj(vec![
        ("action", s("search")),
        ("query", s("a declarative sentence")),
    ])))
    .err()
    .unwrap();
    assert_eq!(missing_collection.to_string(), "Missing required parameter for search: collection");
}

#[test]
fn a_search_names_its_collection_query_and_count() {
    let req = ChromaDBTool::parse_request(Some(&obj(vec![
        ("action", s("search")),
        ("collection", s("notes")),
        ("query", s("q")),
        ("n_results", JsonValue::Number(JsonNumber::PosInt(3))),
    ])))
    .ok()
    .unwrap();
    match req {
        KnowledgeRequest::Search { collection, query, n_results } => {
            assert_eq!(collection, "notes");
            assert_eq!(query, "q");
            assert_eq!(n_results, Some(3));
        },
        KnowledgeRequest::Read { .. } => panic!("expected a search"),
    }
}

#[test]
fn test_search_refuses_a_collection_it_was_not_told_about() {
    let err = tool(vec![collection("notes", &[])]).plan_search("secrets", "a declarative sentence", None).err().unwrap();
    assert_eq!(err.to_string(), "Collection 'secrets' not found in available collections");
}

#[test]
fn test_search_refuses_a_collection_with_no_embedding_model() {
    let err = tool(vec![collection("notes", &[("owner", "alice")])])
        .plan_search("notes", "a declarative sentence", Some(3))
        .err()
        .unwrap();
    assert!(err
        .to_string()
        .contains("Collection 'notes' does not have an 'embedding_model' attached to its metadata"));
}

#[test]
fn a_search_uses_the_collection_embedding_model() {
    let q = tool(vec![collection("notes", &[("embedding_model", "nomic-embed-text")])])
        .plan_search("notes", "q", Some(3))
        .ok()
        .unwrap();
    assert_eq!(q.embedding_model, "nomic-embed-text");
    assert_eq!(q.n_results, 3);
}

#[test]
fn test_read_requires_a_filename() {
    let err = ChromaDBTool::parse_request(Some(&obj(vec![("action", s("read"))]))).err().unwrap();
    assert_eq!(err.to_string(), "Missing required parameter for read: filename");
}

/// A read as the tool performs it: the base name of the file named, read
/// (or not found) in the documents directory.
fn read(filename: &str, found: Option<&str>) -> String {
    let content = match ChromaDBTool::read_target(filename) {
        Ok(name) => match found {
            Some(text) => Ok(text.to_string()),
            None => Err(ChromaDBTool::missing_document(&name)),
        },
        Err(e) => Err(e),
    };
    ChromaDBTool::read_result(filename, content)
}

#[test]
fn test_read_strips_directory_components_from_the_filename() {
    assert!(read("../../../../etc/passwd", None).contains("File 'passwd' not found"));
}

#[test]
fn test_read_rejects_a_filename_with_no_basename() {
    assert_eq!(read("..", None), "Error reading document: Invalid filename");
}

#[test]
fn test_read_reports_a_missing_document_without_failing() {
    let r = read("chromadb-tool-test-definitely-absent.txt", None);
    assert!(r.starts_with("Error reading document: File "));
    assert!(r.contains("not found"));
}

#[test]
fn test_read_returns_the_whole_document() {
    assert_eq!(
        read("doc.txt", Some("the quick brown fox")),
        "=== Full Document: doc.txt ===\n\nthe quick brown fox"
    );
}

#[test]
fn test_read_reports_an_empty_document() {
    assert_eq!(read("doc.md", Some("   \n\t ")), "The document 'doc.md' is empty.");
}

#[test]
fn test_read_truncates_an_oversized_document() {
    let r = read("big.txt", Some(&"x".repeat(20_001)));
    assert!(r.contains("(TRUNCATED due to length)"));
    assert!(r.contains("[DOCUMENT TRUNCATED"));
    assert!(r.contains(&"x".repeat(20_000)));
    assert!(!r.contains(&"x".repeat(20_001)));
}

#[test]
fn test_read_truncates_on_a_character_boundary() {
    let r = read("wide.txt", Some(&"é".repeat(10_001)));
    assert!(r.contains("(TRUNCATED due to length)"));
    assert_eq!(r.matches('é').count(), 10_000);
}

#[test]
fn test_read_prefers_a_converted_markdown_sibling_for_a_pdf() {
    assert_eq!(ChromaDBTool::markdown_sibling("book.pdf"), Some("book.pdf.md".to_string()));
    assert_eq!(ChromaDBTool::markdown_sibling("notes.txt"), None);
    assert_eq!(
        read("book.pdf", Some("# Converted\n\nBody text.")),
        "=== Full Document: book.pdf ===\n\n# Converted\n\nBody text."
    );
}
