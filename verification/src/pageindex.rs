//! PageIndex: reasoning-based navigation of hierarchical book indexes. The
//! model reads a document's outline (`get_tree`), picks a node, and reads that
//! node's text (`read_node`).
use vstd::prelude::*;
use crate::framework::{ToolCategory, ToolError, ToolMetadata, ToolType, metadata_is};
use crate::text::{copy_str, decimal, push_decimal};
use crate::json::{JsonValue, text_at};

verus! {

/// One node of a document's outline.
pub struct PageIndexNode {
    pub id: String,
    pub title: String,
    pub page_start: u32,
    pub page_end: u32,
    pub summary: String,
    pub children: Vec<PageIndexNode>,
}

/// A document that has an index.
pub struct PageIndexSummary {
    pub id: String,
    pub filename: String,
    pub title: String,
}

/// The first node, in pre-order, whose id is `id`.
pub open spec fn find_in(nodes: Seq<PageIndexNode>, id: Seq<char>) -> Option<PageIndexNode>
    decreases nodes,
{
    if nodes.len() == 0 {
        None
    } else if nodes[0].id@ == id {
        Some(nodes[0])
    } else {
        match find_in(nodes[0].children@, id) {
            Some(n) => Some(n),
            None => {
                proof {
                    vstd::seq::axiom_seq_len_decreases(nodes, nodes.drop_first());
                }
                find_in(nodes.drop_first(), id)
            },
        }
    }
}

/// Two spaces per level of depth.
pub open spec fn indent(depth: nat) -> Seq<char>
    decreases depth,
{
    if depth == 0 {
        seq![]
    } else {
        indent((depth - 1) as nat) + "  "@
    }
}

/// One outline line: `{indent}- [{id}] {title} (pages {start}-{end}): {summary}`.
pub open spec fn node_line(n: PageIndexNode, depth: nat) -> Seq<char> {
    indent(depth) + "- ["@ + n.id@ + "] "@ + n.title@ + " (pages "@ + decimal(n.page_start as nat)
        + "-"@ + decimal(n.page_end as nat) + "): "@ + n.summary@ + "\n"@
}

/// The indented outline of `nodes`, each node followed by its children one
/// level deeper.
pub open spec fn render(nodes: Seq<PageIndexNode>, depth: nat) -> Seq<char>
    decreases nodes,
{
    if nodes.len() == 0 {
        seq![]
    } else {
        proof {
            vstd::seq::axiom_seq_len_decreases(nodes, nodes.drop_first());
        }
        node_line(nodes[0], depth) + render(nodes[0].children@, depth + 1) + render(
            nodes.drop_first(),
            depth,
        )
    }
}

proof fn lemma_find_in_suffix(nodes: Seq<PageIndexNode>, i: int, id: Seq<char>)
    requires
        0 <= i < nodes.len(),
    ensures
        find_in(nodes.subrange(i, nodes.len() as int), id) == (if nodes[i].id@ == id {
            Some(nodes[i])
        } else {
            match find_in(nodes[i].children@, id) {
                Some(n) => Some(n),
                None => find_in(nodes.subrange(i + 1, nodes.len() as int), id),
            }
        }),
{
    let rest = nodes.subrange(i, nodes.len() as int);
    assert(rest[0] == nodes[i]);
    assert(rest.drop_first() =~= nodes.subrange(i + 1, nodes.len() as int));
}

/// Recursively search a node tree for the node with the given id.
pub fn find_node<'a>(nodes: &'a [PageIndexNode], id: &str) -> (r: Option<&'a PageIndexNode>)
    ensures
        match r {
            Some(n) => find_in(nodes@, id@) == Some(*n),
            None => find_in(nodes@, id@) is None,
        },
    decreases nodes@,
{
    let mut i: usize = 0;
    assert(nodes@.subrange(0, nodes@.len() as int) =~= nodes@);
    while i < nodes.len()
        invariant
            i <= nodes@.len(),
            find_in(nodes@, id@) == find_in(nodes@.subrange(i as int, nodes@.len() as int), id@),
        decreases nodes@.len() - i,
    {
        proof {
            lemma_find_in_suffix(nodes@, i as int, id@);
        }
        let node = &nodes[i];
        if crate::text::str_eq(node.id.as_str(), id) {
            return Some(node);
        }
        assert(decreases_to!(nodes@ => nodes@[i as int].children@));
        match find_node(node.children.as_slice(), id) {
            Some(found) => {
                return Some(found);
            },
            None => {},
        }
        i = i + 1;
    }
    assert(nodes@.subrange(i as int, nodes@.len() as int).len() == 0);
    None
}

fn push_indent(out: &mut String, depth: usize)
    ensures
        final(out)@ == old(out)@ + indent(depth as nat),
{
    let mut k: usize = 0;
    while k < depth
        invariant
            k <= depth,
            out@ == old(out)@ + indent(k as nat),
        decreases depth - k,
    {
        out.append("  ");
        k = k + 1;
        assert(out@ =~= old(out)@ + indent(k as nat));
    }
}

proof fn lemma_render_suffix(nodes: Seq<PageIndexNode>, i: int, depth: nat)
    requires
        0 <= i < nodes.len(),
    ensures
        render(nodes.subrange(i, nodes.len() as int), depth) == node_line(nodes[i], depth)
            + render(nodes[i].children@, depth + 1) + render(
            nodes.subrange(i + 1, nodes.len() as int),
            depth,
        ),
{
    let rest = nodes.subrange(i, nodes.len() as int);
    assert(rest[0] == nodes[i]);
    assert(rest.drop_first() =~= nodes.subrange(i + 1, nodes.len() as int));
}

/// Appends the outline of `nodes` to `out`, each line prefixed by `pad`
/// (the indentation of `depth`).
fn push_tree(out: &mut String, nodes: &[PageIndexNode], pad: &str, Ghost(depth): Ghost<nat>)
    requires
        pad@ == indent(depth),
    ensures
        final(out)@ == old(out)@ + render(nodes@, depth),
    decreases nodes@,
{
    let ghost start = out@;
    let mut i: usize = 0;
    assert(nodes@.subrange(0, nodes@.len() as int) =~= nodes@);
    while i < nodes.len()
        invariant
            i <= nodes@.len(),
            pad@ == indent(depth),
            out@ + render(nodes@.subrange(i as int, nodes@.len() as int), depth) == start
                + render(nodes@, depth),
        decreases nodes@.len() - i,
    {
        proof {
            lemma_render_suffix(nodes@, i as int, depth);
        }
        let node = &nodes[i];
        let ghost before = out@;
        out.append(pad);
        out.append("- [");
        out.append(node.id.as_str());
        out.append("] ");
        out.append(node.title.as_str());
        out.append(" (pages ");
        push_decimal(out, node.page_start as u64);
        out.append("-");
        push_decimal(out, node.page_end as u64);
        out.append("): ");
        out.append(node.summary.as_str());
        out.append("\n");
        assert(out@ =~= before + node_line(nodes@[i as int], depth));
        let ghost mid = out@;
        if node.children.len() > 0 {
            assert(decreases_to!(nodes@ => nodes@[i as int].children@));
            let mut child_pad = copy_str(pad);
            child_pad.append("  ");
            push_tree(out, node.children.as_slice(), child_pad.as_str(), Ghost(depth + 1));
        } else {
            assert(render(nodes@[i as int].children@, depth + 1) =~= seq![]);
            assert(out@ =~= mid + render(nodes@[i as int].children@, depth + 1));
        }
        assert(out@ + render(nodes@.subrange(i + 1, nodes@.len() as int), depth) =~= start
            + render(nodes@, depth));
        i = i + 1;
    }
    proof {
        assert(render(nodes@.subrange(i as int, nodes@.len() as int), depth) =~= seq![]);
    }
    assert(out@ =~= start + render(nodes@, depth));
}

/// Renders a node tree as an indented text outline, starting at `depth`.
pub fn render_tree(nodes: &[PageIndexNode], depth: usize) -> (r: String)
    ensures
        r@ == render(nodes@, depth as nat),
{
    let mut pad = String::new();
    push_indent(&mut pad, depth);
    assert(pad@ =~= indent(depth as nat));
    let mut out = String::new();
    push_tree(&mut out, nodes, pad.as_str(), Ghost(depth as nat));
    assert(out@ =~= render(nodes@, depth as nat));
    out
}

/// The longest prefix of `s` that fits in the 20,000-byte reading budget.
pub open spec fn clipped(s: Seq<char>) -> Seq<char> {
    s.take(crate::text::fitting_prefix_len(s, 20000) as int)
}

/// The text handed back for a section: empty sections are reported, long
/// sections are cut at the byte budget, others are shown whole.
pub open spec fn section_text(node_id: Seq<char>, document_id: Seq<char>, content: Seq<char>) -> Seq<char> {
    if crate::text::all_ws(content) {
        "Node '"@ + node_id + "' in document '"@ + document_id + "' has no extractable text."@
    } else if crate::text::byte_len(content) > 20000 {
        "=== Section: "@ + node_id + " (TRUNCATED due to length) ===\n\n"@ + clipped(content)
            + "\n\n...[SECTION TRUNCATED: This section is over 20,000 characters. Consider drilling into a child node returned by get_tree for a narrower excerpt.]..."@
    } else {
        "=== Section: "@ + node_id + " ===\n\n"@ + content
    }
}

/// What became of reading a document's `tree.json`.
pub enum TreeSource {
    /// There is no `tree.json` for the document.
    Absent,
    /// The file exists but could not be read.
    Unreadable,
    /// The file was read but is not a node list.
    Unparseable,
    /// The parsed outline.
    Parsed(Vec<PageIndexNode>),
}

/// What became of extracting a node's pages from the source PDF.
pub enum SectionSource {
    /// The source PDF could not be read.
    Unreadable,
    /// Text extraction failed with this message.
    ExtractionFailed(String),
    /// The extracted text.
    Extracted(String),
}

/// A request the PageIndex tool accepts.
pub enum PageIndexRequest {
    GetTree { document_id: String },
    ReadNode { document_id: String, node_id: String },
}

/// PageIndex tool: reasoning-based RAG over hierarchical book indexes.
pub struct PageIndexTool {
    pub available_documents: Vec<PageIndexSummary>,
    pub metadata: ToolMetadata,
}

/// The description line of one available document.
pub open spec fn document_line(d: PageIndexSummary) -> Seq<char> {
    "- id: '"@ + d.id@ + "', title: '"@ + d.title@ + "' (file: "@ + d.filename@ + ")\n"@
}

/// The list of available documents advertised to the model.
pub open spec fn documents_info(docs: Seq<PageIndexSummary>) -> Seq<char>
    decreases docs.len(),
{
    if docs.len() == 0 {
        seq![]
    } else {
        documents_info(docs.drop_last()) + document_line(docs.last())
    }
}

impl PageIndexTool {
    /// A tool over the given documents.
    pub fn new(available_documents: Vec<PageIndexSummary>) -> (t: Self)
        ensures
            t.available_documents@ == available_documents@,
            metadata_is(
                t.metadata,
                "2"@,
                "PageIndex"@,
                ToolType::PageIndex,
                "Navigate hierarchical book indexes by reasoning over section summaries"@,
                ToolCategory::Database,
            ),
    {
        PageIndexTool {
            available_documents,
            metadata: ToolMetadata::from_parts(
                "2",
                "PageIndex",
                ToolType::PageIndex,
                "Navigate hierarchical book indexes by reasoning over section summaries",
                ToolCategory::Database,
            ),
        }
    }

    /// The tool's metadata.
    pub fn metadata(&self) -> (m: &ToolMetadata)
        ensures
            *m == self.metadata,
    {
        &self.metadata
    }

    /// The "available documents" part of the tool's description.
    pub fn documents_description(&self) -> (r: String)
        ensures
            r@ == (if self.available_documents@.len() == 0 {
                "No PageIndex documents currently available.\n"@
            } else {
                documents_info(self.available_documents@)
            }),
    {
        let docs = &self.available_documents;
        if docs.len() == 0 {
            return copy_str("No PageIndex documents currently available.\n");
        }
        let mut out = String::new();
        let mut i: usize = 0;
        while i < docs.len()
            invariant
                i <= docs@.len(),
                out@ == documents_info(docs@.take(i as int)),
            decreases docs@.len() - i,
        {
            let d = &docs[i];
            out.append("- id: '");
            out.append(d.id.as_str());
            out.append("', title: '");
            out.append(d.title.as_str());
            out.append("' (file: ");
            out.append(d.filename.as_str());
            out.append(")\n");
            proof {
                assert(docs@.take(i + 1).drop_last() =~= docs@.take(i as int));
            }
            i = i + 1;
        }
        assert(docs@.take(docs@.len() as int) =~= docs@);
        out
    }

    /// Checks an id supplied by the model: only a bare file name is accepted,
    /// so it cannot reach outside the index directory.
    pub fn sanitize_id(id: &str) -> (r: Result<String, ToolError>)
        ensures
            match r {
                Ok(s) => s@ == id@ && crate::text::file_name(id@) == Some(id@),
                Err(e) => crate::text::file_name(id@) != Some(id@) && e.message@ == "Invalid id: "@
                    + id@,
            },
    {
        match crate::text::path_file_name(id) {
            Some(name) => {
                if crate::text::str_eq(name.as_str(), id) {
                    Ok(name)
                } else {
                    let mut m = copy_str("Invalid id: ");
                    m.append(id);
                    Err(ToolError::new(m))
                }
            },
            None => {
                let mut m = copy_str("Invalid id: ");
                m.append(id);
                Err(ToolError::new(m))
            },
        }
    }

    /// Reads the tool call's arguments (`None` when they were not JSON).
    pub fn parse_request(args: Option<&JsonValue>) -> (r: Result<PageIndexRequest, ToolError>)
        ensures
            match args {
                None => r matches Err(e) && e.message@ == "Failed to parse tool call arguments"@,
                Some(a) => match text_at(*a, seq!["action"]) {
                    None => r matches Err(e) && e.message@
                        == "Missing required parameter: action"@,
                    Some(action) => match text_at(*a, seq!["document_id"]) {
                        None => r matches Err(e) && e.message@
                            == "Missing required parameter: document_id"@,
                        Some(doc) => if action == "get_tree"@ {
                            r matches Ok(PageIndexRequest::GetTree { document_id }) && document_id@ == doc
                        } else if action == "read_node"@ {
                            match text_at(*a, seq!["node_id"]) {
                                None => r matches Err(e) && e.message@
                                    == "Missing required parameter for read_node: node_id"@,
                                Some(node) => r matches Ok(
                                    PageIndexRequest::ReadNode { document_id, node_id },
                                ) && document_id@ == doc && node_id@ == node,
                            }
                        } else {
                            r matches Err(e) && e.message@ == "Invalid action: "@ + action
                        },
                    },
                },
            },
    {
        let a = match args {
            None => {
                return Err(ToolError::msg("Failed to parse tool call arguments"));
            },
            Some(a) => a,
        };
        let action = match a.text1("action") {
            None => {
                return Err(ToolError::msg("Missing required parameter: action"));
            },
            Some(s) => s,
        };
        let document_id = match a.text1("document_id") {
            None => {
                return Err(ToolError::msg("Missing required parameter: document_id"));
            },
            Some(s) => s,
        };
        if crate::text::str_eq(action, "get_tree") {
            Ok(PageIndexRequest::GetTree { document_id: copy_str(document_id) })
        } else if crate::text::str_eq(action, "read_node") {
            match a.text1("node_id") {
                None => Err(ToolError::msg("Missing required parameter for read_node: node_id")),
                Some(node) => Ok(
                    PageIndexRequest::ReadNode {
                        document_id: copy_str(document_id),
                        node_id: copy_str(node),
                    },
                ),
            }
        } else {
            let mut m = copy_str("Invalid action: ");
            m.append(action);
            Err(ToolError::new(m))
        }
    }

    /// The outline read from disk, or the error explaining why there is none.
    pub fn load_tree_result(document_id: &str, source: TreeSource) -> (r: Result<
        Vec<PageIndexNode>,
        ToolError,
    >)
        ensures
            match source {
                TreeSource::Parsed(nodes) => r matches Ok(n) && n@ == nodes@,
                TreeSource::Absent => r matches Err(e) && e.message@ == "No index found for document '"@
                    + document_id@ + "'. It may not exist or may still be processing."@,
                TreeSource::Unreadable => r matches Err(e) && e.message@ == "Failed to read tree.json"@,
                TreeSource::Unparseable => r matches Err(e) && e.message@
                    == "Failed to parse tree.json"@,
            },
    {
        match source {
            TreeSource::Parsed(nodes) => Ok(nodes),
            TreeSource::Absent => {
                let mut m = copy_str("No index found for document '");
                m.append(document_id);
                m.append("'. It may not exist or may still be processing.");
                Err(ToolError::new(m))
            },
            TreeSource::Unreadable => Err(ToolError::msg("Failed to read tree.json")),
            TreeSource::Unparseable => Err(ToolError::msg("Failed to parse tree.json")),
        }
    }

    /// The result text of `get_tree` for the loaded (or failed) outline.
    pub fn get_tree_text(document_id: &str, tree: Result<Vec<PageIndexNode>, ToolError>) -> (r: String)
        ensures
            match tree {
                Ok(nodes) => r@ == (if nodes@.len() == 0 {
                    "Document '"@ + document_id@ + "' has an empty index."@
                } else {
                    "=== Table of Contents: "@ + document_id@ + " ===\n\n"@ + render(nodes@, 0)
                }),
                Err(e) => r@ == "Error loading tree for document '"@ + document_id@ + "': "@ + e.message@,
            },
    {
        match tree {
            Ok(nodes) => {
                if nodes.len() == 0 {
                    let mut r = copy_str("Document '");
                    r.append(document_id);
                    r.append("' has an empty index.");
                    r
                } else {
                    let mut r = copy_str("=== Table of Contents: ");
                    r.append(document_id);
                    r.append(" ===\n\n");
                    let t = render_tree(nodes.as_slice(), 0);
                    r.append(t.as_str());
                    r
                }
            },
            Err(e) => {
                let mut r = copy_str("Error loading tree for document '");
                r.append(document_id);
                r.append("': ");
                r.append(e.message.as_str());
                r
            },
        }
    }

    /// The page range of `node_id`, found in the loaded outline.
    pub fn locate_node(document_id: &str, node_id: &str, tree: Result<Vec<PageIndexNode>, ToolError>) -> (r: Result<
        (u32, u32),
        ToolError,
    >)
        ensures
            match tree {
                Err(e) => r matches Err(e2) && e2.message@ == e.message@,
                Ok(nodes) => match find_in(nodes@, node_id@) {
                    Some(n) => r == Ok::<(u32, u32), ToolError>((n.page_start, n.page_end)),
                    None => r matches Err(e) && e.message@ == "Node '"@ + node_id@
                        + "' not found in document '"@ + document_id@
                        + "'. Use 'get_tree' to see valid node ids."@,
                },
            },
    {
        match tree {
            Err(e) => Err(e),
            Ok(nodes) => match find_node(nodes.as_slice(), node_id) {
                Some(n) => Ok((n.page_start, n.page_end)),
                None => {
                    let mut m = copy_str("Node '");
                    m.append(node_id);
                    m.append("' not found in document '");
                    m.append(document_id);
                    m.append("'. Use 'get_tree' to see valid node ids.");
                    Err(ToolError::new(m))
                },
            },
        }
    }

    /// The section's text, or the error explaining why there is none.
    pub fn section_result(source: SectionSource) -> (r: Result<String, ToolError>)
        ensures
            match source {
                SectionSource::Extracted(t) => r matches Ok(s) && s@ == t@,
                SectionSource::Unreadable => r matches Err(e) && e.message@
                    == "Failed to read source PDF"@,
                SectionSource::ExtractionFailed(m) => r matches Err(e) && e.message@
                    == "Failed to extract section text: "@ + m@,
            },
    {
        match source {
            SectionSource::Extracted(t) => Ok(t),
            SectionSource::Unreadable => Err(ToolError::msg("Failed to read source PDF")),
            SectionSource::ExtractionFailed(m) => {
                let mut msg = copy_str("Failed to extract section text: ");
                msg.append(m.as_str());
                Err(ToolError::new(msg))
            },
        }
    }

    /// The result text of `read_node` for the section read (or failed).
    pub fn read_node_text(document_id: &str, node_id: &str, section: Result<String, ToolError>) -> (r: String)
        ensures
            match section {
                Ok(content) => r@ == section_text(node_id@, document_id@, content@),
                Err(e) => r@ == "Error reading node '"@ + node_id@ + "' in document '"@
                    + document_id@ + "': "@ + e.message@,
            },
    {
        match section {
            Ok(content) => {
                if crate::text::is_blank(content.as_str()) {
                    let mut r = copy_str("Node '");
                    r.append(node_id);
                    r.append("' in document '");
                    r.append(document_id);
                    r.append("' has no extractable text.");
                    r
                } else {
                    let v = crate::text::chars_of(content.as_str());
                    let (k, fits) = crate::text::fitting_prefix(v.as_slice(), 20000);
                    if !fits {
                        let head = crate::text::string_from_chars(crate::text::slice_prefix(v.as_slice(), k));
                        let mut r = copy_str("=== Section: ");
                        r.append(node_id);
                        r.append(" (TRUNCATED due to length) ===\n\n");
                        r.append(head.as_str());
                        r.append("\n\n...[SECTION TRUNCATED: This section is over 20,000 characters. Consider drilling into a child node returned by get_tree for a narrower excerpt.]...");
                        r
                    } else {
                        let mut r = copy_str("=== Section: ");
                        r.append(node_id);
                        r.append(" ===\n\n");
                        r.append(content.as_str());
                        r
                    }
                }
            },
            Err(e) => {
                let mut r = copy_str("Error reading node '");
                r.append(node_id);
                r.append("' in document '");
                r.append(document_id);
                r.append("': ");
                r.append(e.message.as_str());
                r
            },
        }
    }
}

} // verus!
