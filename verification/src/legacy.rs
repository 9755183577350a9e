//! The first generation of tools: metadata with keywords, the semantic search
//! over one configured collection, the mock financial data and the short
//! system prompt.
use vstd::prelude::*;
use crate::framework::{ToolCallResult, ToolError};
use crate::json::{as_nat, lookup, text_at, JsonValue};
use crate::text::{contains_seq, copy_str, decimal, lowercase, push_decimal, to_lower, words};

verus! {

/// Tool categories for organisation.
#[derive(Debug, Clone, Copy, PartialEq, Eq, Structural)]
pub enum ToolCategory {
    Search,
    DataQuery,
    Analysis,
    Communication,
    Other,
}

/// Tool metadata for registration and selection.
pub struct ToolMetadata {
    pub id: String,
    pub name: String,
    pub description: String,
    /// Keywords that help identify when to use the tool.
    pub keywords: Vec<String>,
    pub category: ToolCategory,
}

/// Metadata with an id and a name, no description or keywords, and the
/// `Other` category.
fn named_metadata(id: &str, name: &str) -> (m: ToolMetadata)
    ensures
        m.id@ == id@,
        m.name@ == name@,
        m.description@.len() == 0,
        m.keywords@.len() == 0,
        m.category == ToolCategory::Other,
{
    ToolMetadata {
        id: copy_str(id),
        name: copy_str(name),
        description: String::new(),
        keywords: Vec::new(),
        category: ToolCategory::Other,
    }
}

/// The collection searched and the embedding model its queries use.
pub struct ChromaDBToolConfig {
    pub collection: String,
    pub embedding_model: String,
}

/// Semantic search over one configured collection.
pub struct ChromaDBTool {
    pub chroma_address: String,
    pub config: ChromaDBToolConfig,
    pub metadata: ToolMetadata,
}

/// A document a query returned, and whether it is within the similarity
/// threshold (cosine distance at most 0.5, or no distance given).
pub struct FoundDocument {
    pub text: String,
    pub relevant: bool,
}

/// The relevant documents of a batch, in order.
pub open spec fn relevant_in(b: Seq<FoundDocument>) -> Seq<Seq<char>>
    decreases b.len(),
{
    if b.len() == 0 {
        Seq::empty()
    } else if b.last().relevant {
        relevant_in(b.drop_last()).push(b.last().text@)
    } else {
        relevant_in(b.drop_last())
    }
}

/// The relevant documents of all batches, batch after batch.
pub open spec fn relevant_all(bs: Seq<Vec<FoundDocument>>) -> Seq<Seq<char>>
    decreases bs.len(),
{
    if bs.len() == 0 {
        Seq::empty()
    } else {
        relevant_all(bs.drop_last()) + relevant_in(bs.last()@)
    }
}

/// The documents numbered from one, each in its own block.
pub open spec fn document_blocks(ds: Seq<Seq<char>>) -> Seq<char>
    decreases ds.len(),
{
    if ds.len() == 0 {
        Seq::empty()
    } else {
        document_blocks(ds.drop_last()) + "=== Document "@ + decimal(ds.len()) + " ===\n"@
            + ds.last() + "\n\n"@
    }
}

/// The search result handed back to the model.
pub open spec fn search_text(documents: Option<Vec<Vec<FoundDocument>>>) -> Seq<char> {
    match documents {
        None => "No documents found in the collection."@,
        Some(bs) => if relevant_all(bs@).len() == 0 {
            "No relevant documents found (similarity threshold: 0.5)."@
        } else {
            document_blocks(relevant_all(bs@))
        },
    }
}

/// The texts of the relevant documents of all batches.
fn relevant_documents(bs: &Vec<Vec<FoundDocument>>) -> (r: Vec<&str>)
    ensures
        r@.map_values(|s: &str| s@) == relevant_all(bs@),
{
    let mut r: Vec<&str> = Vec::new();
    let mut i: usize = 0;
    assert(bs@.take(0) =~= Seq::<Vec<FoundDocument>>::empty());
    assert(r@.map_values(|s: &str| s@) =~= Seq::<Seq<char>>::empty());
    while i < bs.len()
        invariant
            i <= bs@.len(),
            r@.map_values(|s: &str| s@) == relevant_all(bs@.take(i as int)),
        decreases bs@.len() - i,
    {
        let b = &bs[i];
        let ghost done = relevant_all(bs@.take(i as int));
        let mut j: usize = 0;
        assert(b@.take(0) =~= Seq::<FoundDocument>::empty());
        assert(done + relevant_in(b@.take(0)) =~= done);
        while j < b.len()
            invariant
                j <= b@.len(),
                b@ == bs@[i as int]@,
                r@.map_values(|s: &str| s@) == done + relevant_in(b@.take(j as int)),
            decreases b@.len() - j,
        {
            let ghost prev = r@.map_values(|s: &str| s@);
            assert(b@.take(j + 1).drop_last() =~= b@.take(j as int));
            assert(b@.take(j + 1).last() == b@[j as int]);
            if b[j].relevant {
                r.push(b[j].text.as_str());
                assert(r@.map_values(|s: &str| s@) =~= prev.push(b@[j as int].text@));
                assert(done + relevant_in(b@.take(j + 1)) =~= prev.push(b@[j as int].text@));
            } else {
                assert(done + relevant_in(b@.take(j + 1)) =~= prev);
            }
            j = j + 1;
        }
        assert(b@.take(b@.len() as int) =~= b@);
        assert(bs@.take(i + 1).drop_last() =~= bs@.take(i as int));
        assert(bs@.take(i + 1).last() == bs@[i as int]);
        i = i + 1;
    }
    assert(bs@.take(bs@.len() as int) =~= bs@);
    r
}

/// A request to the search tool: the query, and how many results.
pub struct SearchRequest {
    pub query: String,
    pub n_results: Option<u64>,
}

impl ChromaDBTool {
    /// A search tool over the configured collection of the store at
    /// `chroma_address`.
    pub fn new(chroma_address: &str, config: ChromaDBToolConfig) -> (t: Self)
        ensures
            t.chroma_address@ == chroma_address@,
            t.config == config,
            t.metadata.id@ == "1"@,
            t.metadata.name@ == "chroma db search"@,
    {
        ChromaDBTool {
            chroma_address: copy_str(chroma_address),
            config,
            metadata: named_metadata("1", "chroma db search"),
        }
    }

    /// Reads the tool call's arguments (`None` when they were not JSON).
    pub fn parse_request(args: Option<&JsonValue>) -> (r: Result<SearchRequest, ToolError>)
        ensures
            match args {
                None => r matches Err(e) && e.message@ == "Failed to parse tool call arguments"@,
                Some(a) => match text_at(*a, seq!["query"]) {
                    None => r matches Err(e) && e.message@ == "Missing required parameter: query"@,
                    Some(q) => r matches Ok(req) && req.query@ == q && req.n_results == as_nat(
                        lookup(*a, seq!["n_results"]),
                    ),
                },
            },
    {
        let a = match args {
            None => {
                return Err(ToolError::msg("Failed to parse tool call arguments"));
            },
            Some(a) => a,
        };
        match a.text1("query") {
            None => Err(ToolError::msg("Missing required parameter: query")),
            Some(q) => Ok(SearchRequest { query: copy_str(q), n_results: a.u64_1("n_results") }),
        }
    }

    /// How many results to ask for: ten unless the call said otherwise.
    pub fn result_count(n_results: Option<u64>) -> (n: u64)
        ensures
            n == match n_results {
                Some(k) => k,
                None => 10,
            },
    {
        match n_results {
            Some(k) => k,
            None => 10,
        }
    }

    /// Renders the documents a query returned, numbering the relevant ones.
    pub fn format_results(documents: &Option<Vec<Vec<FoundDocument>>>) -> (r: String)
        ensures
            r@ == search_text(*documents),
    {
        match documents {
            None => copy_str("No documents found in the collection."),
            Some(bs) => {
                let ds = relevant_documents(bs);
                let ghost dv = ds@.map_values(|s: &str| s@);
                if ds.len() == 0 {
                    return copy_str("No relevant documents found (similarity threshold: 0.5).");
                }
                let mut out = String::new();
                let mut k: usize = 0;
                assert(dv.take(0) =~= Seq::<Seq<char>>::empty());
                while k < ds.len()
                    invariant
                        k <= ds@.len(),
                        dv == ds@.map_values(|s: &str| s@),
                        out@ == document_blocks(dv.take(k as int)),
                    decreases ds@.len() - k,
                {
                    assert(dv.take(k + 1).drop_last() =~= dv.take(k as int));
                    assert(dv.take(k + 1).last() == ds@[k as int]@);
                    out.append("=== Document ");
                    push_decimal(&mut out, (k + 1) as u64);
                    out.append(" ===\n");
                    out.append(ds[k]);
                    out.append("\n\n");
                    assert(out@ =~= document_blocks(dv.take(k + 1)));
                    k = k + 1;
                }
                assert(dv.take(dv.len() as int) =~= dv);
                out
            },
        }
    }

    /// The call's result, named after the tool's function.
    pub fn result(text: String) -> (r: ToolCallResult)
        ensures
            r.tool_name@ == "search_chromadb"@,
            r.result@ == text@,
            r.tool_call_id is None,
    {
        ToolCallResult::named("search_chromadb", text)
    }
}

/// The purchases the mock financial data reports.
pub const MOCK_FINANCIAL_DATA: &'static str = "Recent Purchases:\n1. TV - $200.00\n2. Phone - $100.00\n3. Candy bar - $5.00\n\nTotal: $305.00";

/// Financial data tool answering with mock purchases.
pub struct FinancialDataTool {
    pub metadata: ToolMetadata,
}

impl FinancialDataTool {
    /// The mock financial data tool.
    pub fn new() -> (t: Self)
        ensures
            t.metadata.id@ == "2"@,
            t.metadata.name@ == "financial sql query"@,
    {
        FinancialDataTool { metadata: named_metadata("2", "financial sql query") }
    }

    /// The answer to any call: the mock purchases.
    pub fn execute(&self) -> (r: ToolCallResult)
        ensures
            r.tool_name@ == "get_financial_data"@,
            r.result@ == MOCK_FINANCIAL_DATA@,
            r.tool_call_id is None,
    {
        ToolCallResult::named("get_financial_data", copy_str(MOCK_FINANCIAL_DATA))
    }
}

/// A tool as the short system prompt lists it: the `name` and `description`
/// of its function definition, where those are strings.
pub struct ListedTool {
    pub name: Option<String>,
    pub description: Option<String>,
}

/// An optional text, or `default`.
pub open spec fn or_default(o: Option<String>, default: Seq<char>) -> Seq<char> {
    match o {
        Some(s) => s@,
        None => default,
    }
}

/// The lines of the first `n` tools, numbered from one.
pub open spec fn listed_lines(ts: Seq<ListedTool>, n: nat) -> Seq<char>
    decreases n,
{
    if n == 0 {
        Seq::empty()
    } else {
        listed_lines(ts, (n - 1) as nat) + decimal(n) + ". "@ + or_default(ts[n - 1].name, "unknown"@)
            + ": "@ + or_default(ts[n - 1].description, "No description available"@) + "\n\n"@
    }
}

pub const SHORT_PROMPT_INTRO: &'static str = "You are a helpful AI assistant with access to tools.\n\n";

pub const SHORT_PROMPT_GUIDELINES: &'static str = "GUIDELINES:\n- Use tools iteratively: call tools, analyze results, call again if needed, then provide final answer\n- Don't use tools for greetings or small talk\n- Respond naturally without explaining tool usage or internal processes";

/// The short system prompt for the listed tools.
pub open spec fn short_prompt(ts: Seq<ListedTool>) -> Seq<char> {
    SHORT_PROMPT_INTRO@ + (if ts.len() == 0 {
        Seq::empty()
    } else {
        "AVAILABLE TOOLS:\n"@ + listed_lines(ts, ts.len())
    }) + SHORT_PROMPT_GUIDELINES@
}

/// Builds the short system prompt from the registered tools.
pub struct ToolSelector {
    tools: Vec<ListedTool>,
}

fn push_or_default(out: &mut String, o: &Option<String>, default: &str)
    ensures
        final(out)@ == old(out)@ + or_default(*o, default@),
{
    match o {
        Some(s) => out.append(s.as_str()),
        None => out.append(default),
    }
}

impl ToolSelector {
    /// A selector over the registered tools.
    pub fn new(tools: Vec<ListedTool>) -> (s: Self)
        ensures
            s.tools() == tools@,
    {
        ToolSelector { tools }
    }

    /// The tools the prompt lists.
    pub closed spec fn tools(&self) -> Seq<ListedTool> {
        self.tools@
    }

    /// The system prompt listing the tools.
    pub fn build_system_prompt(&self) -> (r: String)
        ensures
            r@ == short_prompt(self.tools()),
    {
        let mut p = copy_str(SHORT_PROMPT_INTRO);
        let ghost head = p@;
        let ts = &self.tools;
        if ts.len() > 0 {
            p.append("AVAILABLE TOOLS:\n");
            let ghost before = p@;
            let mut i: usize = 0;
            while i < ts.len()
                invariant
                    i <= ts@.len(),
                    p@ == before + listed_lines(ts@, i as nat),
                decreases ts@.len() - i,
            {
                let ghost at_start = p@;
                push_decimal(&mut p, (i + 1) as u64);
                p.append(". ");
                push_or_default(&mut p, &ts[i].name, "unknown");
                p.append(": ");
                push_or_default(&mut p, &ts[i].description, "No description available");
                p.append("\n\n");
                assert(p@ =~= before + listed_lines(ts@, (i + 1) as nat));
                i = i + 1;
            }
        }
        p.append(SHORT_PROMPT_GUIDELINES);
        p
    }
}

/// What a tool's relevance to a query rests on: how many of its keywords
/// occur in the query, how many keywords it has, and whether a word of the
/// query occurs in its description (all compared in lower case).
pub struct RelevanceEvidence {
    pub matched: usize,
    pub keywords: usize,
    pub description_hit: bool,
}

/// How many of the keywords occur, lower-cased, in `q`.
pub open spec fn keyword_hits(keywords: Seq<String>, q: Seq<char>) -> nat
    decreases keywords.len(),
{
    if keywords.len() == 0 {
        0
    } else {
        keyword_hits(keywords.drop_last(), q) + if contains_seq(q, lowercase(keywords.last()@)) {
            1nat
        } else {
            0nat
        }
    }
}

/// Some word of `q` occurs in `desc`.
pub open spec fn word_in(q: Seq<char>, desc: Seq<char>) -> bool {
    exists|i: int| 0 <= i < words(q).len() && contains_seq(desc, #[trigger] words(q)[i])
}

fn any_word_in(ws: &Vec<String>, desc: &str) -> (b: bool)
    ensures
        b == exists|i: int| 0 <= i < ws@.len() && contains_seq(desc@, #[trigger] ws@[i]@),
{
    let mut j: usize = 0;
    while j < ws.len()
        invariant
            j <= ws@.len(),
            forall|m: int| 0 <= m < j ==> !contains_seq(desc@, #[trigger] ws@[m]@),
        decreases ws@.len() - j,
    {
        if crate::text::str_contains(desc, ws[j].as_str()) {
            return true;
        }
        j = j + 1;
    }
    false
}

impl ToolMetadata {
    /// The evidence of relevance to `query`. The score a tool gives is a
    /// share of the keywords matched, plus a fifth for a description hit,
    /// at most one, and one half for a tool without keywords; that
    /// arithmetic is in floating point, which is the caller's.
    pub fn relevance_evidence(&self, query: &str) -> (r: RelevanceEvidence)
        ensures
            r.keywords == self.keywords@.len(),
            r.matched == keyword_hits(self.keywords@, lowercase(query@)),
            r.description_hit == word_in(lowercase(query@), lowercase(self.description@)),
    {
        let q = to_lower(query);
        let mut matched: usize = 0;
        let mut i: usize = 0;
        assert(self.keywords@.take(0) =~= Seq::<String>::empty());
        while i < self.keywords.len()
            invariant
                i <= self.keywords@.len(),
                q@ == lowercase(query@),
                matched == keyword_hits(self.keywords@.take(i as int), q@),
                matched <= i,
            decreases self.keywords@.len() - i,
        {
            assert(self.keywords@.take(i + 1).drop_last() =~= self.keywords@.take(i as int));
            assert(self.keywords@.take(i + 1).last() == self.keywords@[i as int]);
            let k = to_lower(self.keywords[i].as_str());
            if crate::text::str_contains(q.as_str(), k.as_str()) {
                matched = matched + 1;
            }
            i = i + 1;
        }
        assert(self.keywords@.take(self.keywords@.len() as int) =~= self.keywords@);
        let desc = to_lower(self.description.as_str());
        let ws = crate::text::split_whitespace(q.as_str());
        let hit = any_word_in(&ws, desc.as_str());
        proof {
            let wv = ws@.map_values(|w: String| w@);
            assert forall|i: int| 0 <= i < ws@.len() implies #[trigger] wv[i] == ws@[i]@ by {}
            if hit {
                let i = choose|i: int| 0 <= i < ws@.len() && contains_seq(desc@, #[trigger] ws@[i]@);
                assert(contains_seq(desc@, wv[i]));
            } else {
                assert forall|i: int| 0 <= i < wv.len() implies !contains_seq(desc@, #[trigger] wv[i]) by {
                    assert(wv[i] == ws@[i]@);
                }
            }
        }
        RelevanceEvidence { matched, keywords: self.keywords.len(), description_hit: hit }
    }
}

} // verus!
