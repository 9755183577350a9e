use agent_tools::mock::MockTool;
use agent_tools::registry::ToolRegistry;

fn register_mock(registry: &mut ToolRegistry<MockTool>, tool: MockTool) -> Result<(), String> {
    let metadata = tool.metadata.duplicate();
    let name = tool.metadata.name.clone();
    let available = tool.is_available();
    registry.register(metadata, name, available, tool).map_err(|e| e.to_string())
}

#[test]
fn test_registry_add_retrieve() {
    let mut registry = ToolRegistry::new();
    let tool = MockTool::new("tool1", true);

    register_mock(&mut registry, tool).expect("Failed to register tool");

    let retrieved = registry.get_tool("tool1");
    assert!(retrieved.is_some());
    assert_eq!(retrieved.unwrap().metadata.id, "tool1");

    let retrieved_by_name = registry.get_tool_by_name("mock_function_tool1");
    assert!(retrieved_by_name.is_some());
}

#[test]
fn test_registry_duplicate_id() {
    let mut registry = ToolRegistry::new();
    let tool1 = MockTool::new("tool1", true);
    let tool2 = MockTool::new("tool1", true);

    register_mock(&mut registry, tool1).expect("Failed to register first tool");

    assert!(register_mock(&mut registry, tool2).is_err());
}

#[test]
fn test_registry_unavailable_tool() {
    let mut registry = ToolRegistry::new();
    let tool = MockTool::new("tool_unavailable", false);

    register_mock(&mut registry, tool).expect("Failed to register unavailable tool");

    assert!(registry.get_tool("tool_unavailable").is_none());
}

#[test]
fn test_get_all_tools() {
    let mut registry = ToolRegistry::new();
    register_mock(&mut registry, MockTool::new("t1", true)).unwrap();
    register_mock(&mut registry, MockTool::new("t2", true)).unwrap();

    let tools = registry.get_all_tools();
    assert_eq!(tools.len(), 2);
}

#[test]
fn duplicate_registration_reports_the_id_and_keeps_the_first_tool() {
    let mut registry = ToolRegistry::new();
    register_mock(&mut registry, MockTool::new("same", true)).unwrap();
    let err = register_mock(&mut registry, MockTool::new("same", true)).unwrap_err();
    assert_eq!(err, "Tool with ID 'same' already registered");
    assert_eq!(registry.count(), 1);
    // An unavailable tool is skipped before its id is looked at.
    assert!(register_mock(&mut registry, MockTool::new("same", false)).is_ok());
    assert_eq!(registry.count(), 1);
}

#[test]
fn a_registered_tool_is_found_by_id_and_by_function_name() {
    let mut registry = ToolRegistry::new();
    register_mock(&mut registry, MockTool::new("a", true)).unwrap();
    register_mock(&mut registry, MockTool::new("b", true)).unwrap();
    assert!(registry.is_registered("a"));
    assert!(registry.is_registered("b"));
    assert!(!registry.is_registered("c"));
    assert_eq!(registry.get_tool_by_name("mock_function_b").unwrap().metadata.id, "b");
    assert!(registry.get_tool_by_name("b").is_none());
    assert_eq!(registry.get_all_tool_ids(), vec!["a".to_string(), "b".to_string()]);
}

#[test]
fn a_call_to_an_unknown_function_is_refused() {
    let mut registry = ToolRegistry::new();
    register_mock(&mut registry, MockTool::new("a", true)).unwrap();
    assert!(registry.tool_for_call("mock_function_a").is_ok());
    let err = registry.tool_for_call("nope").err().unwrap();
    assert_eq!(err.to_string(), "Tool 'nope' not found. Available tools: [\"mock_function_a\"]");
}

#[test]
fn the_mock_tool_answers_every_call_the_same_way() {
    let tool = MockTool::new("m", true);
    let r = tool.execute();
    assert_eq!(r.tool_name, "mock_tool");
    assert_eq!(r.result, "Executed");
    assert!(r.tool_call_id.is_none());
}
