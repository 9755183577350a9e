//! The tool through which the model asks the user a multiple-choice question.
//! The conversation loop intercepts its calls and pauses for the answer.
use vstd::prelude::*;
use crate::framework::{metadata_is, ToolCategory, ToolError, ToolMetadata, ToolType};

verus! {

/// Asks the user a multiple-choice question.
pub struct AskHumanTool {
    pub metadata: ToolMetadata,
}

impl AskHumanTool {
    /// The tool.
    pub fn new() -> (t: Self)
        ensures
            metadata_is(
                t.metadata,
                "ask_human"@,
                "Ask Human"@,
                ToolType::AskHuman,
                "Ask the user a multiple-choice question and pause execution until they select an option."@,
                ToolCategory::Utility,
            ),
    {
        AskHumanTool {
            metadata: ToolMetadata::from_parts(
                "ask_human",
                "Ask Human",
                ToolType::AskHuman,
                "Ask the user a multiple-choice question and pause execution until they select an option.",
                ToolCategory::Utility,
            ),
        }
    }

    /// Executing the tool directly always fails: the conversation loop must
    /// intercept its calls.
    pub fn execute(&self) -> (r: Result<String, ToolError>)
        ensures
            r matches Err(e) && e.message@
                == "This tool requires human input and should be intercepted by the streaming loop."@,
    {
        Err(
            ToolError::msg(
                "This tool requires human input and should be intercepted by the streaming loop.",
            ),
        )
    }
}

} // verus!
