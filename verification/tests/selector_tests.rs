use agent_tools::framework::ToolType;
use agent_tools::selector::{build_system_prompt_at, PromptTool, ToolSelector};

fn echo(name: &str, tool_type: ToolType) -> PromptTool {
    PromptTool {
        tool_type,
        name: Some(name.to_string()),
        description: Some("A test tool that echoes a canned result".to_string()),
    }
}

fn selector_with(tools: Vec<(&str, ToolType)>) -> ToolSelector {
    ToolSelector::new(tools.into_iter().map(|(n, t)| echo(n, t)).collect())
}

#[test]
fn an_empty_registry_says_no_tools_are_enabled() {
    let prompt = ToolSelector::new(vec![]).build_system_prompt();

    assert!(prompt.starts_with("Current Date/Time: "));
    assert!(prompt.contains("User Default Timezone: Europe/Warsaw"));
    assert!(prompt.contains("AVAILABLE TOOLS: None (no tools are currently enabled)"));
    assert!(!prompt.contains("**KNOWLEDGE BASE & RAG ALWAYS:**"));
    assert!(!prompt.contains("**PAGEINDEX"));
    assert!(!prompt.contains("THINK FIRST"));
    assert!(prompt.contains("GUIDELINES:"));
    assert!(prompt.contains("```json-chart"));
}

#[test]
fn registered_tools_are_numbered_with_their_function_descriptions() {
    let prompt = selector_with(vec![
        ("first_tool", ToolType::AskHuman),
        ("second_tool", ToolType::AskHuman),
    ])
    .build_system_prompt();

    assert!(prompt.contains("AVAILABLE TOOLS:\n"));
    assert!(prompt.contains("THINK FIRST BEFORE USING ANY OTHER TOOLS"));
    assert!(prompt.contains("1. "));
    assert!(prompt.contains("2. "));
    assert!(prompt.contains("first_tool: A test tool that echoes a canned result"));
    assert!(prompt.contains("second_tool: A test tool that echoes a canned result"));
    assert!(!prompt.contains("**KNOWLEDGE BASE & RAG ALWAYS:**"));
    assert!(!prompt.contains("**PAGEINDEX"));
}

#[test]
fn a_chromadb_tool_adds_the_knowledge_base_instructions() {
    let prompt = selector_with(vec![("kb", ToolType::ChromaDB)]).build_system_prompt();

    assert!(prompt.contains("**KNOWLEDGE BASE & RAG ALWAYS:**"));
    assert!(prompt.contains("**Multi-Query Strategy:**"));
    assert!(prompt.contains("**Deep Dive (REQUIRED):**"));
    assert!(prompt.contains("**Cite Sources:**"));
    assert!(!prompt.contains("**PAGEINDEX"));
}

#[test]
fn a_pageindex_tool_adds_the_reasoning_navigation_instructions() {
    let prompt = selector_with(vec![("outline", ToolType::PageIndex)]).build_system_prompt();

    assert!(prompt.contains("**PAGEINDEX (REASONING-BASED BOOK NAVIGATION):**"));
    assert!(prompt.contains("**Reason, Don't Match Keywords:**"));
    assert!(prompt.contains("**Read Before Answering:**"));
    assert!(!prompt.contains("**KNOWLEDGE BASE & RAG ALWAYS:**"));
}

#[test]
fn both_rag_preambles_appear_when_both_tool_types_are_enabled() {
    let prompt = selector_with(vec![("kb", ToolType::ChromaDB), ("outline", ToolType::PageIndex)])
        .build_system_prompt();

    let knowledge_base = prompt
        .find("**KNOWLEDGE BASE & RAG ALWAYS:**")
        .expect("the knowledge base preamble");
    let pageindex = prompt
        .find("**PAGEINDEX (REASONING-BASED BOOK NAVIGATION):**")
        .expect("the pageindex preamble");
    let think_first = prompt.find("**THINK FIRST").expect("the think-first line");
    assert!(knowledge_base < pageindex, "{}", prompt);
    assert!(pageindex < think_first, "{}", prompt);
}

#[test]
fn the_prompt_at_a_given_time_lists_tools_in_order() {
    let tools = vec![
        echo("a", ToolType::AskHuman),
        PromptTool { tool_type: ToolType::Weather, name: None, description: None },
    ];
    let prompt = build_system_prompt_at("2024-01-02 03:04:05 UTC", &tools);
    assert!(prompt.starts_with(
        "Current Date/Time: 2024-01-02 03:04:05 UTC\nUser Default Timezone: Europe/Warsaw\n"
    ));
    let first = prompt.find("1. a: A test tool that echoes a canned result\n\n").unwrap();
    let second = prompt.find("2. unknown: No description available\n\n").unwrap();
    assert!(first < second);
    assert!(prompt.ends_with("green for gains)."));
}

#[test]
fn the_clock_reading_is_shaped_like_a_utc_timestamp() {
    let prompt = ToolSelector::new(vec![]).build_system_prompt();
    let rest = &prompt["Current Date/Time: ".len()..];
    let stamp = &rest[..rest.find('\n').unwrap()];
    assert_eq!(stamp.len(), "2024-01-02 03:04:05 UTC".len());
    assert!(stamp.ends_with(" UTC"));
}
