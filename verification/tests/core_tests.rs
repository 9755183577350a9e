use agent_tools::chromadb::ChromaDBTool;
use agent_tools::facebook::{FacebookCredentials, DEFAULT_GRAPH_API_VERSION, GRAPH_API_BASE_URL};
use agent_tools::framework::{ToolCategory, ToolType};
use agent_tools::pageindex::{find_node, render_tree, PageIndexNode, PageIndexSummary, PageIndexTool};
use agent_tools::system::as_glob_pattern;
use agent_tools::bluesky::trim_trailing_punctuation;

fn credentials_with_version(version: &str) -> FacebookCredentials {
    FacebookCredentials::new(None, None, None, version.to_string(), GRAPH_API_BASE_URL.to_string())
}

fn outline() -> Vec<PageIndexNode> {
    vec![PageIndexNode {
        id: "n1".to_string(),
        title: "Chapter 1".to_string(),
        page_start: 1,
        page_end: 20,
        summary: "Intro".to_string(),
        children: vec![PageIndexNode {
            id: "n2".to_string(),
            title: "Section 1.1".to_string(),
            page_start: 1,
            page_end: 10,
            summary: "Details".to_string(),
            children: vec![],
        }],
    }]
}

#[test]
fn test_chromadb_metadata() {
    let tool = ChromaDBTool::new("http://127.0.0.1:1", vec![]);
    let metadata = tool.metadata();

    assert_eq!(metadata.id, "1");
    assert_eq!(metadata.name, "Knowledge Base");
    assert_eq!(
        metadata.description,
        "Search knowledge base for information and read full documents"
    );
    assert_eq!(metadata.category, ToolCategory::Database);
    assert_eq!(metadata.tool_type, ToolType::ChromaDB);
}

#[test]
fn test_pageindex_metadata() {
    let tool = PageIndexTool::new(vec![]);
    let metadata = tool.metadata();
    assert_eq!(metadata.id, "2");
    assert_eq!(metadata.name, "PageIndex");
    assert_eq!(metadata.category, ToolCategory::Database);
    assert_eq!(metadata.tool_type, ToolType::PageIndex);
}

#[test]
fn test_find_node_recursive() {
    let nodes = outline();
    assert!(find_node(&nodes, "n1").is_some());
    assert!(find_node(&nodes, "n2").is_some());
    assert!(find_node(&nodes, "n3").is_none());
}

#[test]
fn test_render_tree_indents_children() {
    let nodes = outline();
    let rendered = render_tree(&nodes, 0);
    assert!(rendered.contains("- [n1] Chapter 1 (pages 1-20): Intro"));
    assert!(rendered.contains("  - [n2] Section 1.1 (pages 1-10): Details"));
}

#[test]
fn the_description_lists_the_available_documents() {
    let empty = PageIndexTool::new(vec![]);
    let description = empty.documents_description();
    assert!(description.contains("No PageIndex documents currently available."));

    let stocked = PageIndexTool::new(vec![PageIndexSummary {
        id: "doc1".to_string(),
        filename: "rust-book.pdf".to_string(),
        title: "The Rust Book".to_string(),
    }]);
    let description = stocked.documents_description();
    assert!(description.contains("id: 'doc1', title: 'The Rust Book' (file: rust-book.pdf)"));
}

#[test]
fn every_category_maps_to_its_material_icon() {
    let mappings = [
        (ToolCategory::Web, "web"),
        (ToolCategory::Financial, "currency-usd"),
        (ToolCategory::Database, "database"),
        (ToolCategory::Search, "magnify"),
        (ToolCategory::File, "file-document"),
        (ToolCategory::Google, "google"),
        (ToolCategory::Social, "share-variant"),
        (ToolCategory::Development, "code-tags"),
        (ToolCategory::Utility, "wrench"),
    ];
    for (category, icon) in mappings {
        assert_eq!(category.icon_name(), icon, "{:?}", category);
    }
}

#[test]
fn keeps_balanced_trailing_paren_in_url() {
    let url = "https://en.wikipedia.org/wiki/Rust_(programming_language)";
    assert_eq!(trim_trailing_punctuation(url), url);
}

#[test]
fn strips_unbalanced_trailing_paren() {
    let captured = "https://example.com/foo)";
    assert_eq!(trim_trailing_punctuation(captured), "https://example.com/foo");
}

#[test]
fn strips_sentence_punctuation() {
    assert_eq!(trim_trailing_punctuation("https://example.com."), "https://example.com");
    assert_eq!(trim_trailing_punctuation("#rustlang,"), "#rustlang");
}

#[test]
fn strips_unbalanced_trailing_brackets_and_braces() {
    assert_eq!(trim_trailing_punctuation("https://example.com/a]"), "https://example.com/a");
    assert_eq!(trim_trailing_punctuation("https://example.com/a}"), "https://example.com/a");
    assert_eq!(trim_trailing_punctuation("https://example.com/[a]"), "https://example.com/[a]");
    assert_eq!(trim_trailing_punctuation("https://example.com/{a}"), "https://example.com/{a}");
}

#[test]
fn graph_url_uses_configured_version() {
    let creds = credentials_with_version("v99.0");
    assert_eq!(creds.graph_url("123/posts"), "https://graph.facebook.com/v99.0/123/posts");
}

#[test]
fn missing_page_id_gives_clear_error() {
    let creds = credentials_with_version(DEFAULT_GRAPH_API_VERSION);
    let err = creds.page_id().unwrap_err().to_string();
    assert!(err.contains("FACEBOOK_PAGE_ID"));
}

#[test]
fn missing_business_id_gives_clear_error() {
    let creds = credentials_with_version(DEFAULT_GRAPH_API_VERSION);
    let err = creds.business_id().unwrap_err().to_string();
    assert!(err.contains("FACEBOOK_BUSINESS_ID"));
}

#[test]
fn missing_access_token_gives_clear_error() {
    let creds = credentials_with_version(DEFAULT_GRAPH_API_VERSION);
    let err = creds.access_token().unwrap_err().to_string();
    assert!(err.contains("FACEBOOK_PAGE_ACCESS_TOKEN"));
}

#[test]
fn graph_url_uses_the_real_host_by_default_and_the_override_in_tests() {
    let real = credentials_with_version("v21.0");
    assert_eq!(real.graph_url("123/feed"), "https://graph.facebook.com/v21.0/123/feed");

    let mocked = FacebookCredentials::for_test("http://127.0.0.1:9");
    assert_eq!(
        mocked.graph_url("123/feed"),
        format!("http://127.0.0.1:9/{}/123/feed", DEFAULT_GRAPH_API_VERSION)
    );
    assert_eq!(mocked.page_id().unwrap(), "page_1");
    assert_eq!(mocked.business_id().unwrap(), "biz_1");
    assert_eq!(mocked.access_token().unwrap(), "test-page-token");
    assert!(mocked
        .without_access_token()
        .access_token()
        .unwrap_err()
        .to_string()
        .contains("FACEBOOK_PAGE_ACCESS_TOKEN"));
}

#[test]
fn glob_pattern_wraps_bare_queries_but_leaves_globs_alone() {
    assert_eq!(as_glob_pattern("jks"), "*jks*");
    assert_eq!(as_glob_pattern(".jks"), "*.jks");
    assert_eq!(as_glob_pattern("*.jks"), "*.jks");
    assert_eq!(as_glob_pattern("spaceghost.jks"), "*spaceghost.jks*");
}
