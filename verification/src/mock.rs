//! A tool that does nothing, for exercising the registry.
use vstd::prelude::*;
use crate::framework::{metadata_is, ToolCallResult, ToolCategory, ToolMetadata, ToolType};
use crate::text::copy_str;

verus! {

/// A stand-in tool whose availability is chosen.
pub struct MockTool {
    pub available: bool,
    pub metadata: ToolMetadata,
}

impl MockTool {
    /// A stand-in tool with id `id`, named `mock_function_{id}`.
    pub fn new(id: &str, available: bool) -> (t: Self)
        ensures
            t.available == available,
            metadata_is(
                t.metadata,
                id@,
                "mock_function_"@ + id@,
                ToolType::Weather,
                "A mock tool for testing"@,
                ToolCategory::Utility,
            ),
    {
        let mut name = copy_str("mock_function_");
        name.append(id);
        MockTool {
            available,
            metadata: ToolMetadata {
                id: copy_str(id),
                name,
                tool_type: ToolType::Weather,
                description: copy_str("A mock tool for testing"),
                category: ToolCategory::Utility,
            },
        }
    }

    /// Whether the tool is available.
    pub fn is_available(&self) -> (b: bool)
        ensures
            b == self.available,
    {
        self.available
    }

    /// The answer to any call.
    pub fn execute(&self) -> (r: ToolCallResult)
        ensures
            r.tool_name@ == "mock_tool"@,
            r.result@ == "Executed"@,
            r.tool_call_id is None,
    {
        ToolCallResult::named("mock_tool", copy_str("Executed"))
    }
}

} // verus!
