//! Reading a whole uploaded document: the file name is reduced to its last
//! component, a PDF is read from its converted markdown when there is one,
//! and long documents are cut at the reading budget. The file reading itself
//! is the caller's.
use vstd::prelude::*;
use crate::chromadb::ChromaDBTool;
use crate::framework::{metadata_is, ToolCategory, ToolError, ToolMetadata, ToolType};
use crate::json::{text_at, JsonValue};
use crate::text::{all_ws, byte_len, copy_str, fitting_prefix_len};

verus! {

/// The text handed back for a document that was read: empty documents are
/// reported, long ones are cut at the byte budget, others are shown whole.
pub open spec fn full_document_text(filename: Seq<char>, content: Seq<char>) -> Seq<char> {
    if all_ws(content) {
        "The document '"@ + filename + "' is empty."@
    } else if byte_len(content) > 20000 {
        "=== Document: "@ + filename + " (TRUNCATED due to length) ===\n\n"@ + content.take(
            fitting_prefix_len(content, 20000) as int,
        )
            + "\n\n...[DOCUMENT TRUNCATED: This file is over 20,000 characters and is too large to read entirely. Use search_chromadb with specific, focused queries to find the exact paragraphs you need.]..."@
    } else {
        "=== Full Document: "@ + filename + " ===\n\n"@ + content
    }
}

/// Reads a whole document from the knowledge base.
pub struct ReadDocumentTool {
    pub metadata: ToolMetadata,
}

impl ReadDocumentTool {
    /// The tool.
    pub fn new() -> (t: Self)
        ensures
            metadata_is(
                t.metadata,
                "read_document_1"@,
                "Read Full Document"@,
                ToolType::ReadDocument,
                "Read the entire contents of a document retrieved from the knowledge base"@,
                ToolCategory::Database,
            ),
    {
        ReadDocumentTool {
            metadata: ToolMetadata::from_parts(
                "read_document_1",
                "Read Full Document",
                ToolType::ReadDocument,
                "Read the entire contents of a document retrieved from the knowledge base",
                ToolCategory::Database,
            ),
        }
    }

    /// The tool's metadata.
    pub fn metadata(&self) -> (m: &ToolMetadata)
        ensures
            *m == self.metadata,
    {
        &self.metadata
    }

    /// The file name a call names (its arguments `None` when they were not
    /// JSON).
    pub fn parse_filename(args: Option<&JsonValue>) -> (r: Result<String, ToolError>)
        ensures
            match args {
                None => r matches Err(e) && e.message@ == "Failed to parse tool call arguments"@,
                Some(a) => match text_at(*a, seq!["filename"]) {
                    None => r matches Err(e) && e.message@ == "Missing required parameter: filename"@,
                    Some(f) => r matches Ok(s) && s@ == f,
                },
            },
    {
        match args {
            None => Err(ToolError::msg("Failed to parse tool call arguments")),
            Some(a) => match a.text1("filename") {
                None => Err(ToolError::msg("Missing required parameter: filename")),
                Some(f) => Ok(copy_str(f)),
            },
        }
    }

    /// The name of the file to read: the last component of the name given.
    pub fn read_target(filename: &str) -> (r: Result<String, ToolError>)
        ensures
            match crate::text::file_name(filename@) {
                Some(n) => r matches Ok(s) && s@ == n,
                None => r matches Err(e) && e.message@ == "Invalid filename"@,
            },
    {
        ChromaDBTool::read_target(filename)
    }

    /// The result text for the file read (or failed), `filename` being the
    /// name the call gave.
    pub fn read_result(filename: &str, content: Result<String, ToolError>) -> (r: String)
        ensures
            match content {
                Ok(c) => r@ == full_document_text(filename@, c@),
                Err(e) => r@ == "Error reading document: "@ + e.message@,
            },
    {
        match content {
            Err(e) => {
                let mut r = copy_str("Error reading document: ");
                r.append(e.message.as_str());
                r
            },
            Ok(content) => {
                if crate::text::is_blank(content.as_str()) {
                    let mut r = copy_str("The document '");
                    r.append(filename);
                    r.append("' is empty.");
                    r
                } else {
                    let v = crate::text::chars_of(content.as_str());
                    let (k, fits) = crate::text::fitting_prefix(v.as_slice(), 20000);
                    if !fits {
                        let head = crate::text::string_from_chars(
                            crate::text::slice_prefix(v.as_slice(), k),
                        );
                        let mut r = copy_str("=== Document: ");
                        r.append(filename);
                        r.append(" (TRUNCATED due to length) ===\n\n");
                        r.append(head.as_str());
                        r.append(
                            "\n\n...[DOCUMENT TRUNCATED: This file is over 20,000 characters and is too large to read entirely. Use search_chromadb with specific, focused queries to find the exact paragraphs you need.]...",
                        );
                        r
                    } else {
                        let mut r = copy_str("=== Full Document: ");
                        r.append(filename);
                        r.append(" ===\n\n");
                        r.append(content.as_str());
                        r
                    }
                }
            },
        }
    }
}

} // verus!
