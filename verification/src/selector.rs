//! The system prompt: the current time, the enabled tools with the
//! preambles their kinds call for, and the general guidelines.
use vstd::prelude::*;
use crate::framework::ToolType;
use crate::text::{copy_str, decimal, push_decimal};

verus! {

/// What the prompt shows of one enabled tool: its kind, and the `name` and
/// `description` of its function definition, where those are strings.
pub struct PromptTool {
    pub tool_type: ToolType,
    pub name: Option<String>,
    pub description: Option<String>,
}

pub const PROMPT_TIME_LABEL: &'static str = "Current Date/Time: ";

pub const PROMPT_INTRO: &'static str = "\nUser Default Timezone: Europe/Warsaw\nYou are a helpful AI assistant with access to tools.\n\n";

pub const NO_TOOLS_LINE: &'static str = "AVAILABLE TOOLS: None (no tools are currently enabled)\n\n";

pub const TOOLS_HEADING: &'static str = "AVAILABLE TOOLS:\n";

pub const KNOWLEDGE_BASE_PREAMBLE: &'static str = "**KNOWLEDGE BASE & RAG ALWAYS:** You have access to a semantic vector database. ALWAYS search it before answering factual questions.\n- **Multi-Query Strategy:** Never rely on just one search. Execute 2-3 different `chromadb_tool` search calls with different phrasing (e.g., one with exact keywords, one with broad concepts) to ensure you find the right information.\n- **Deep Dive (REQUIRED):** If your `chromadb_tool` search results show multiple chunks from the exact same `filename`, OR if a chunk has a very small distance score (indicating high relevance), you MUST use the `chromadb_tool` with action `read` to read the full file. Do not rely solely on the snippets if it's highly relevant. Note: If the file is a massive book, the tool will automatically truncate it, so don't worry about context limits.\n- **Cite Sources:** When answering based on knowledge base results or documents, you MUST list your sources (e.g., filenames) clearly at the end of your response.\n\n";

pub const PAGEINDEX_PREAMBLE: &'static str = "**PAGEINDEX (REASONING-BASED BOOK NAVIGATION):** You have access to hierarchical table-of-contents indexes for technical books, built without vector search. To use it: call `pageindex_tool` with action `get_tree` first to see a book's chapter/section outline and per-section summaries.\n- **Reason, Don't Match Keywords:** Read the section summaries and pick the node(s) most likely to answer the question by reasoning about their meaning, not by matching keywords.\n- **Drill Down When Needed:** If a summary is too broad to confidently answer, call `get_tree` again (or use the children already returned) and pick a more specific child node instead of guessing.\n- **Read Before Answering:** Once you've identified the relevant node, call `pageindex_tool` with action `read_node` to fetch its actual text before answering - never answer from the summary alone.\n\n";

pub const THINK_FIRST_LINE: &'static str = "**THINK FIRST BEFORE USING ANY OTHER TOOLS THAN THE KNOWLEDGE BASE:** Do you really need to use a tool? If you can answer with your internal knowledge, do NOT use a tool.\n\n";

pub const GUIDELINES: &'static str = "GUIDELINES:
- Use tools iteratively: call tools, analyze results, call again if needed, then provide final answer
- Don't use tools for greetings or small talk
- Respond naturally without explaining tool usage or internal processes
- CRITICAL: When you receive the results of a tool call in your next turn, you MUST use that data to answer the user's question directly. Do NOT simply say 'I have gathered the information' and wait. Synthesize the tool results into a helpful response.
- CHART CREATION: If the user asks for a chart or graph (e.g., timeline, bar chart) to visualize data (like weather forecasts, stock prices, etc.), output the data in a `json-chart` code block strictly following this schema:
```json-chart
{
  \"type\": \"line\", // or \"bar\"
  \"title\": \"Chart Title\",
  \"xAxis\": { \"label\": \"X Axis Label\", \"data\": [\"Label 1\", \"Label 2\"] },
  \"series\": [
    { \"name\": \"Series Name\", \"data\": [10.5, 20.3] }
  ]
}
```
- CHART COLORS: Each series may optionally include a `color` field (a hex string, e.g. \"#e34948\"). Leave it out by default — the chart automatically assigns a distinct, accessible color to each series. Only set `color` explicitly when the user asks for specific/custom colors, or when a color carries meaning (e.g. red for losses, green for gains).";

/// Some tool of the list has kind `t`.
pub open spec fn has_kind(tools: Seq<PromptTool>, t: ToolType) -> bool {
    exists|i: int| 0 <= i < tools.len() && #[trigger] tools[i].tool_type == t
}

/// A string option's text, or `default`.
pub open spec fn text_or_default(o: Option<String>, default: Seq<char>) -> Seq<char> {
    match o {
        Some(s) => s@,
        None => default,
    }
}

/// The line of the tool at position `i` (numbered from one).
pub open spec fn tool_line(i: nat, t: PromptTool) -> Seq<char> {
    decimal(i + 1) + ". "@ + text_or_default(t.name, "unknown"@) + ": "@ + text_or_default(
        t.description,
        "No description available"@,
    ) + "\n\n"@
}

/// The lines of the first `n` tools.
pub open spec fn tool_lines(tools: Seq<PromptTool>, n: nat) -> Seq<char>
    decreases n,
{
    if n == 0 {
        Seq::empty()
    } else {
        tool_lines(tools, (n - 1) as nat) + tool_line((n - 1) as nat, tools[n - 1])
    }
}

/// The part of the prompt that lists the tools.
pub open spec fn tools_section(tools: Seq<PromptTool>) -> Seq<char> {
    if tools.len() == 0 {
        NO_TOOLS_LINE@
    } else {
        TOOLS_HEADING@ + (if has_kind(tools, ToolType::ChromaDB) {
            KNOWLEDGE_BASE_PREAMBLE@
        } else {
            Seq::empty()
        }) + (if has_kind(tools, ToolType::PageIndex) {
            PAGEINDEX_PREAMBLE@
        } else {
            Seq::empty()
        }) + THINK_FIRST_LINE@ + tool_lines(tools, tools.len())
    }
}

/// The whole system prompt at time `now`.
pub open spec fn system_prompt(now: Seq<char>, tools: Seq<PromptTool>) -> Seq<char> {
    PROMPT_TIME_LABEL@ + now + PROMPT_INTRO@ + tools_section(tools) + GUIDELINES@
}

/// Whether some tool has kind `t`.
fn any_of_kind(tools: &[PromptTool], t: ToolType) -> (b: bool)
    ensures
        b == has_kind(tools@, t),
{
    let mut i: usize = 0;
    while i < tools.len()
        invariant
            i <= tools@.len(),
            forall|j: int| 0 <= j < i ==> #[trigger] tools@[j].tool_type != t,
        decreases tools@.len() - i,
    {
        if tools[i].tool_type == t {
            return true;
        }
        i = i + 1;
    }
    false
}

fn push_text_or(out: &mut String, o: &Option<String>, default: &str)
    ensures
        final(out)@ == old(out)@ + text_or_default(*o, default@),
{
    match o {
        Some(s) => out.append(s.as_str()),
        None => out.append(default),
    }
}

/// The system prompt for `tools` at the time `now`.
pub fn build_system_prompt_at(now: &str, tools: &[PromptTool]) -> (r: String)
    ensures
        r@ == system_prompt(now@, tools@),
{
    let mut p = copy_str(PROMPT_TIME_LABEL);
    p.append(now);
    p.append(PROMPT_INTRO);
    let ghost head = p@;
    if tools.len() == 0 {
        p.append(NO_TOOLS_LINE);
    } else {
        p.append(TOOLS_HEADING);
        if any_of_kind(tools, ToolType::ChromaDB) {
            p.append(KNOWLEDGE_BASE_PREAMBLE);
        }
        if any_of_kind(tools, ToolType::PageIndex) {
            p.append(PAGEINDEX_PREAMBLE);
        }
        p.append(THINK_FIRST_LINE);
        let ghost before = p@;
        let mut i: usize = 0;
        while i < tools.len()
            invariant
                i <= tools@.len(),
                p@ == before + tool_lines(tools@, i as nat),
            decreases tools@.len() - i,
        {
            let ghost at_start = p@;
            push_decimal(&mut p, (i + 1) as u64);
            p.append(". ");
            push_text_or(&mut p, &tools[i].name, "unknown");
            p.append(": ");
            push_text_or(&mut p, &tools[i].description, "No description available");
            p.append("\n\n");
            assert(p@ =~= at_start + tool_line(i as nat, tools@[i as int]));
            i = i + 1;
        }
        assert(p@ =~= head + tools_section(tools@));
    }
    p.append(GUIDELINES);
    p
}

/// The current UTC time as `%Y-%m-%d %H:%M:%S UTC`. It depends on the clock,
/// so nothing is stated of it.
#[verifier::external_body]
fn utc_now_text() -> (r: String) {
    chrono::Utc::now().format("%Y-%m-%d %H:%M:%S UTC").to_string()
}

/// Builds the system prompt from the enabled tools.
pub struct ToolSelector {
    tools: Vec<PromptTool>,
}

impl ToolSelector {
    /// A selector over the registered tools, in registration order.
    pub fn new(tools: Vec<PromptTool>) -> (s: Self)
        ensures
            s.tools() == tools@,
    {
        ToolSelector { tools }
    }

    /// The tools the prompt lists.
    pub closed spec fn tools(&self) -> Seq<PromptTool> {
        self.tools@
    }

    /// The system prompt at the current time: whatever the clock reads, the
    /// prompt is the one `build_system_prompt_at` gives for that reading.
    pub fn build_system_prompt(&self) -> (r: String)
        ensures
            exists|now: Seq<char>| r@ == system_prompt(now, self.tools()),
    {
        let now = utc_now_text();
        let r = build_system_prompt_at(now.as_str(), self.tools.as_slice());
        assert(r@ == system_prompt(now@, self.tools()));
        r
    }
}

} // verus!
