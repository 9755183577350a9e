//! The knowledge-base tool: semantic search over the vector-store collections
//! it was told about, and reading whole uploaded documents. The query itself
//! and the file reading are done by the caller; this module checks the
//! arguments, picks the collection's embedding model and renders what came
//! back.
use vstd::prelude::*;
use crate::framework::{metadata_is, ToolCategory, ToolError, ToolMetadata, ToolType};
use crate::json::{text_at, as_nat, lookup, JsonValue};
use crate::text::{
    all_ws, byte_len, copy_str, decimal, file_name, fitting_prefix_len, has_suffix, path_file_name,
    push_decimal, str_eq,
};

verus! {

/// A collection of the vector store, as listed to the tool.
pub struct Collection {
    pub id: String,
    pub name: String,
    /// Key/value metadata, in the order the store listed it.
    pub metadata: Option<Vec<(String, String)>>,
    pub count: Option<u64>,
}

/// One hit of a query, as the caller rendered it: the document text, its
/// distance printed with four decimals (when the store gave one), its metadata
/// pretty-printed as JSON (when it had any), and whether it is kept: a hit is
/// kept when it has no distance or its distance is at most 1.2.
pub struct SearchHit {
    pub document: String,
    pub distance: Option<String>,
    pub metadata: Option<String>,
    pub kept: bool,
}

/// A request the knowledge-base tool accepts.
pub enum KnowledgeRequest {
    Search { collection: String, query: String, n_results: Option<u64> },
    Read { filename: String },
}

/// A query ready to be sent: the collection, the query text, how many results
/// to ask for and the embedding model the collection was built with.
pub struct KnowledgeQuery {
    pub collection: String,
    pub query: String,
    pub n_results: u64,
    pub embedding_model: String,
}

/// The knowledge-base tool.
pub struct ChromaDBTool {
    pub chroma_address: String,
    pub available_collections: Vec<Collection>,
    pub metadata: ToolMetadata,
}

/// `key: value`.
pub open spec fn pair_text(p: (String, String)) -> Seq<char> {
    p.0@ + ": "@ + p.1@
}

/// The first `n` pairs, each as `key: value`, joined by `, `.
pub open spec fn pairs_text(m: Seq<(String, String)>, n: nat) -> Seq<char>
    decreases n,
{
    if n == 0 {
        Seq::empty()
    } else if n == 1 {
        pair_text(m[0])
    } else {
        pairs_text(m, (n - 1) as nat) + ", "@ + pair_text(m[n - 1])
    }
}

/// A collection's metadata as listed to the model, or `None`.
pub open spec fn metadata_text(m: Option<Vec<(String, String)>>) -> Seq<char> {
    match m {
        Some(v) => pairs_text(v@, v@.len()),
        None => "None"@,
    }
}

/// The line that lists one collection.
pub open spec fn collection_line(c: Collection) -> Seq<char> {
    "- Name: '"@ + c.name@ + "', Metadata: "@ + metadata_text(c.metadata) + "\n"@
}

/// The lines of the first `n` collections.
pub open spec fn collection_lines(cs: Seq<Collection>, n: nat) -> Seq<char>
    decreases n,
{
    if n == 0 {
        Seq::empty()
    } else {
        collection_lines(cs, (n - 1) as nat) + collection_line(cs[n - 1])
    }
}

/// The list of collections advertised to the model.
pub open spec fn collections_info(cs: Seq<Collection>) -> Seq<char> {
    if cs.len() == 0 {
        "No collections currently available.\n"@
    } else {
        collection_lines(cs, cs.len())
    }
}

/// The description of the tool's function, listing the collections.
pub open spec fn function_description(cs: Seq<Collection>) -> Seq<char> {
    "Interact with the knowledge base. Available collections:\n"@ + collections_info(cs)
        + "\nYou can perform two actions: 'search' to find document snippets via semantic search, or 'read' to view a full document file. CRITICAL: For 'search', formulate a 'HyDE' (Hypothetical Document Embeddings) query: write a declarative sentence or a hypothetical document snippet that would contain the answer. Do NOT pass the user's raw question."@
}

/// The kept hits of one batch, in order.
pub open spec fn kept_in(b: Seq<SearchHit>) -> Seq<SearchHit>
    decreases b.len(),
{
    if b.len() == 0 {
        Seq::empty()
    } else if b.last().kept {
        kept_in(b.drop_last()).push(b.last())
    } else {
        kept_in(b.drop_last())
    }
}

/// The kept hits of all batches, batch after batch.
pub open spec fn kept_all(bs: Seq<Vec<SearchHit>>) -> Seq<SearchHit>
    decreases bs.len(),
{
    if bs.len() == 0 {
        Seq::empty()
    } else {
        kept_all(bs.drop_last()) + kept_in(bs.last()@)
    }
}

/// An optional text, or `default`.
pub open spec fn text_or_else(o: Option<String>, default: Seq<char>) -> Seq<char> {
    match o {
        Some(s) => s@,
        None => default,
    }
}

/// The block of the `k`-th kept hit.
pub open spec fn hit_block(k: nat, h: SearchHit) -> Seq<char> {
    "=== Document "@ + decimal(k) + " (Distance: "@ + text_or_else(h.distance, "N/A"@)
        + ") ===\nMetadata:\n"@ + text_or_else(h.metadata, "{}"@) + "\n\nContent:\n"@
        + h.document@ + "\n\n"@
}

/// The blocks of the kept hits, numbered from one.
pub open spec fn hit_blocks(hs: Seq<SearchHit>) -> Seq<char>
    decreases hs.len(),
{
    if hs.len() == 0 {
        Seq::empty()
    } else {
        hit_blocks(hs.drop_last()) + hit_block(hs.len(), hs.last())
    }
}

/// The search result handed back to the model.
pub open spec fn search_text(documents: Option<Vec<Vec<SearchHit>>>) -> Seq<char> {
    match documents {
        None => "No documents found in the collection."@,
        Some(bs) => if kept_all(bs@).len() == 0 {
            "No relevant documents found (similarity threshold: 1.2)."@
        } else {
            hit_blocks(kept_all(bs@))
        },
    }
}

/// The longest prefix of `s` that fits in the 20,000-byte reading budget.
pub open spec fn clipped_document(s: Seq<char>) -> Seq<char> {
    s.take(fitting_prefix_len(s, 20000) as int)
}

/// The text handed back for a document that was read: empty documents are
/// reported, long ones are cut at the byte budget, others are shown whole.
pub open spec fn document_text(filename: Seq<char>, content: Seq<char>) -> Seq<char> {
    if all_ws(content) {
        "The document '"@ + filename + "' is empty."@
    } else if byte_len(content) > 20000 {
        "=== Document: "@ + filename + " (TRUNCATED due to length) ===\n\n"@ + clipped_document(
            content,
        )
            + "\n\n...[DOCUMENT TRUNCATED: This file is over 20,000 characters and is too large to read entirely. Use search with specific queries to find exact paragraphs.]..."@
    } else {
        "=== Full Document: "@ + filename + " ===\n\n"@ + content
    }
}

/// The index of the first collection named `name`, if any.
pub open spec fn collection_named(cs: Seq<Collection>, name: Seq<char>) -> Option<int>
    decreases cs.len(),
{
    if cs.len() == 0 {
        None
    } else {
        match collection_named(cs.drop_last(), name) {
            Some(i) => Some(i),
            None => if cs.last().name@ == name {
                Some(cs.len() - 1)
            } else {
                None
            },
        }
    }
}

/// The value stored under `key` in a metadata list (the first one).
pub open spec fn metadata_value(m: Seq<(String, String)>, key: Seq<char>) -> Option<Seq<char>>
    decreases m.len(),
{
    if m.len() == 0 {
        None
    } else {
        match metadata_value(m.drop_last(), key) {
            Some(v) => Some(v),
            None => if m.last().0@ == key {
                Some(m.last().1@)
            } else {
                None
            },
        }
    }
}

/// The embedding model a collection advertises.
pub open spec fn embedding_model_of(c: Collection) -> Option<Seq<char>> {
    match c.metadata {
        Some(m) => metadata_value(m@, "embedding_model"@),
        None => None,
    }
}

fn push_pair(out: &mut String, p: &(String, String))
    ensures
        final(out)@ == old(out)@ + pair_text(*p),
{
    out.append(p.0.as_str());
    out.append(": ");
    out.append(p.1.as_str());
}

fn push_metadata(out: &mut String, m: &Option<Vec<(String, String)>>)
    ensures
        final(out)@ == old(out)@ + metadata_text(*m),
{
    match m {
        None => out.append("None"),
        Some(v) => {
            let ghost start = out@;
            let mut i: usize = 0;
            while i < v.len()
                invariant
                    i <= v@.len(),
                    out@ == start + pairs_text(v@, i as nat),
                decreases v@.len() - i,
            {
                let ghost before = out@;
                if i > 0 {
                    out.append(", ");
                }
                push_pair(out, &v[i]);
                assert(out@ =~= start + pairs_text(v@, (i + 1) as nat)) by {
                    if i == 0 {
                        assert(before =~= start);
                    }
                }
                i = i + 1;
            }
        },
    }
}

fn push_or(out: &mut String, o: &Option<String>, default: &str)
    ensures
        final(out)@ == old(out)@ + text_or_else(*o, default@),
{
    match o {
        Some(s) => out.append(s.as_str()),
        None => out.append(default),
    }
}

/// Renders the hits of a query, numbering the kept ones from one.
pub fn format_search_results(documents: &Option<Vec<Vec<SearchHit>>>) -> (r: String)
    ensures
        r@ == search_text(*documents),
{
    match documents {
        None => copy_str("No documents found in the collection."),
        Some(bs) => {
            let kept = kept_hits(bs);
            let ghost ks = kept@.map_values(|h: &SearchHit| *h);
            if kept.len() == 0 {
                return copy_str("No relevant documents found (similarity threshold: 1.2).");
            }
            let mut out = String::new();
            let mut k: usize = 0;
            assert(ks.take(0) =~= Seq::<SearchHit>::empty());
            while k < kept.len()
                invariant
                    k <= kept@.len(),
                    ks == kept@.map_values(|h: &SearchHit| *h),
                    out@ == hit_blocks(ks.take(k as int)),
                decreases kept@.len() - k,
            {
                let h = kept[k];
                assert(ks.take(k + 1).drop_last() =~= ks.take(k as int));
                assert(ks.take(k + 1).last() == *h);
                out.append("=== Document ");
                push_decimal(&mut out, (k + 1) as u64);
                out.append(" (Distance: ");
                push_or(&mut out, &h.distance, "N/A");
                out.append(") ===\nMetadata:\n");
                push_or(&mut out, &h.metadata, "{}");
                out.append("\n\nContent:\n");
                out.append(h.document.as_str());
                out.append("\n\n");
                assert(out@ =~= hit_blocks(ks.take(k + 1)));
                k = k + 1;
            }
            assert(ks.take(ks.len() as int) =~= ks);
            out
        },
    }
}

/// The kept hits of all batches, in order.
fn kept_hits(bs: &Vec<Vec<SearchHit>>) -> (r: Vec<&SearchHit>)
    ensures
        r@.map_values(|h: &SearchHit| *h) == kept_all(bs@),
{
    let mut r: Vec<&SearchHit> = Vec::new();
    let mut i: usize = 0;
    assert(bs@.take(0) =~= Seq::<Vec<SearchHit>>::empty());
    assert(r@.map_values(|h: &SearchHit| *h) =~= Seq::<SearchHit>::empty());
    while i < bs.len()
        invariant
            i <= bs@.len(),
            r@.map_values(|h: &SearchHit| *h) == kept_all(bs@.take(i as int)),
        decreases bs@.len() - i,
    {
        let b = &bs[i];
        let ghost done = kept_all(bs@.take(i as int));
        let mut j: usize = 0;
        assert(b@.take(0) =~= Seq::<SearchHit>::empty());
        assert(done + kept_in(b@.take(0)) =~= done);
        while j < b.len()
            invariant
                j <= b@.len(),
                b@ == bs@[i as int]@,
                r@.map_values(|h: &SearchHit| *h) == done + kept_in(b@.take(j as int)),
            decreases b@.len() - j,
        {
            let h = &b[j];
            let ghost prev = r@.map_values(|h: &SearchHit| *h);
            assert(b@.take(j + 1).drop_last() =~= b@.take(j as int));
            assert(b@.take(j + 1).last() == b@[j as int]);
            if h.kept {
                r.push(h);
                assert(r@.map_values(|h: &SearchHit| *h) =~= prev.push(*h));
                assert(done + kept_in(b@.take(j + 1)) =~= prev.push(*h));
            } else {
                assert(done + kept_in(b@.take(j + 1)) =~= prev);
            }
            j = j + 1;
        }
        assert(b@.take(b@.len() as int) =~= b@);
        assert(bs@.take(i + 1).drop_last() =~= bs@.take(i as int));
        assert(bs@.take(i + 1).last() == bs@[i as int]);
        i = i + 1;
    }
    assert(bs@.take(bs@.len() as int) =~= bs@);
    r
}

impl ChromaDBTool {
    /// A tool over the given collections of the store at `chroma_address`.
    pub fn new(chroma_address: &str, available_collections: Vec<Collection>) -> (t: Self)
        ensures
            t.chroma_address@ == chroma_address@,
            t.available_collections@ == available_collections@,
            metadata_is(
                t.metadata,
                "1"@,
                "Knowledge Base"@,
                ToolType::ChromaDB,
                "Search knowledge base for information and read full documents"@,
                ToolCategory::Database,
            ),
    {
        ChromaDBTool {
            chroma_address: copy_str(chroma_address),
            available_collections,
            metadata: ToolMetadata::from_parts(
                "1",
                "Knowledge Base",
                ToolType::ChromaDB,
                "Search knowledge base for information and read full documents",
                ToolCategory::Database,
            ),
        }
    }

    /// The tool's metadata.
    pub fn metadata(&self) -> (m: &ToolMetadata)
        ensures
            *m == self.metadata,
    {
        &self.metadata
    }

    /// The description of the tool's function, listing the collections.
    pub fn function_description(&self) -> (r: String)
        ensures
            r@ == function_description(self.available_collections@),
    {
        let mut out = copy_str("Interact with the knowledge base. Available collections:\n");
        let ghost start = out@;
        let cs = &self.available_collections;
        if cs.len() == 0 {
            out.append("No collections currently available.\n");
        } else {
            let mut i: usize = 0;
            while i < cs.len()
                invariant
                    i <= cs@.len(),
                    out@ == start + collection_lines(cs@, i as nat),
                decreases cs@.len() - i,
            {
                let ghost before = out@;
                out.append("- Name: '");
                out.append(cs[i].name.as_str());
                out.append("', Metadata: ");
                push_metadata(&mut out, &cs[i].metadata);
                out.append("\n");
                assert(out@ =~= before + collection_line(cs@[i as int]));
                i = i + 1;
            }
        }
        out.append(
            "\nYou can perform two actions: 'search' to find document snippets via semantic search, or 'read' to view a full document file. CRITICAL: For 'search', formulate a 'HyDE' (Hypothetical Document Embeddings) query: write a declarative sentence or a hypothetical document snippet that would contain the answer. Do NOT pass the user's raw question.",
        );
        out
    }

    /// Reads the tool call's arguments (`None` when they were not JSON).
    pub fn parse_request(args: Option<&JsonValue>) -> (r: Result<KnowledgeRequest, ToolError>)
        ensures
            match args {
                None => r matches Err(e) && e.message@ == "Failed to parse tool call arguments"@,
                Some(a) => match text_at(*a, seq!["action"]) {
                    None => r matches Err(e) && e.message@
                        == "Missing required parameter: action"@,
                    Some(action) => if action == "search"@ {
                        match (text_at(*a, seq!["query"]), text_at(*a, seq!["collection"])) {
                            (None, _) => r matches Err(e) && e.message@
                                == "Missing required parameter for search: query"@,
                            (Some(_), None) => r matches Err(e) && e.message@
                                == "Missing required parameter for search: collection"@,
                            (Some(q), Some(c)) => r matches Ok(
                                KnowledgeRequest::Search { collection, query, n_results },
                            ) && collection@ == c && query@ == q && n_results == as_nat(
                                lookup(*a, seq!["n_results"]),
                            ),
                        }
                    } else if action == "read"@ {
                        match text_at(*a, seq!["filename"]) {
                            None => r matches Err(e) && e.message@
                                == "Missing required parameter for read: filename"@,
                            Some(f) => r matches Ok(KnowledgeRequest::Read { filename })
                                && filename@ == f,
                        }
                    } else {
                        r matches Err(e) && e.message@ == "Invalid action: "@ + action
                    },
                },
            },
    {
        let a = match args {
            None => {
                return Err(ToolError::msg("Failed to parse tool call arguments"));
            },
            Some(a) => a,
        };
        let action = match a.text1("action") {
            None => {
                return Err(ToolError::msg("Missing required parameter: action"));
            },
            Some(s) => s,
        };
        if str_eq(action, "search") {
            let query = match a.text1("query") {
                None => {
                    return Err(ToolError::msg("Missing required parameter for search: query"));
                },
                Some(q) => q,
            };
            let collection = match a.text1("collection") {
                None => {
                    return Err(
                        ToolError::msg("Missing required parameter for search: collection"),
                    );
                },
                Some(c) => c,
            };
            Ok(
                KnowledgeRequest::Search {
                    collection: copy_str(collection),
                    query: copy_str(query),
                    n_results: a.u64_1("n_results"),
                },
            )
        } else if str_eq(action, "read") {
            match a.text1("filename") {
                None => Err(ToolError::msg("Missing required parameter for read: filename")),
                Some(f) => Ok(KnowledgeRequest::Read { filename: copy_str(f) }),
            }
        } else {
            let mut m = copy_str("Invalid action: ");
            m.append(action);
            Err(ToolError::new(m))
        }
    }

    /// The query to send for a search: the collection must be one the tool was
    /// told about and must name its embedding model; ten results are asked for
    /// unless the call said otherwise.
    pub fn plan_search(&self, collection: &str, query: &str, n_results: Option<u64>) -> (r: Result<
        KnowledgeQuery,
        ToolError,
    >)
        ensures
            match collection_named(self.available_collections@, collection@) {
                None => r matches Err(e) && e.message@ == "Collection '"@ + collection@
                    + "' not found in available collections"@,
                Some(i) => match embedding_model_of(self.available_collections@[i]) {
                    None => r matches Err(e) && e.message@ == "Collection '"@ + collection@
                        + "' does not have an 'embedding_model' attached to its metadata. The agent cannot determine which model to use for queries."@,
                    Some(model) => r matches Ok(q) && q.collection@ == collection@ && q.query@
                        == query@ && q.embedding_model@ == model && q.n_results == (match n_results {
                        Some(n) => n,
                        None => 10,
                    }),
                },
            },
    {
        let cs = &self.available_collections;
        let mut i: usize = 0;
        while i < cs.len()
            invariant
                i <= cs@.len(),
                cs@ == self.available_collections@,
                collection_named(cs@.take(i as int), collection@) is None,
            decreases cs@.len() - i,
        {
            assert(cs@.take(i + 1).drop_last() =~= cs@.take(i as int));
            if str_eq(cs[i].name.as_str(), collection) {
                proof {
                    lemma_named_prefix(cs@, collection@, i as int);
                }
                let c = &cs[i];
                let model = match &c.metadata {
                    None => None,
                    Some(m) => metadata_lookup(m, "embedding_model"),
                };
                assert(*c == cs@[i as int]);
                assert(match embedding_model_of(*c) {
                    Some(v) => model matches Some(s) && s@ == v,
                    None => model is None,
                });
                assert(collection_named(self.available_collections@, collection@) == Some(i as int));
                return match model {
                    None => {
                        let mut m = copy_str("Collection '");
                        m.append(collection);
                        m.append(
                            "' does not have an 'embedding_model' attached to its metadata. The agent cannot determine which model to use for queries.",
                        );
                        Err(ToolError::new(m))
                    },
                    Some(model) => Ok(
                        KnowledgeQuery {
                            collection: copy_str(collection),
                            query: copy_str(query),
                            n_results: match n_results {
                                Some(n) => n,
                                None => 10,
                            },
                            embedding_model: model,
                        },
                    ),
                };
            }
            i = i + 1;
        }
        assert(cs@.take(cs@.len() as int) =~= cs@);
        let mut m = copy_str("Collection '");
        m.append(collection);
        m.append("' not found in available collections");
        Err(ToolError::new(m))
    }

    /// The name of the file to read: the last component of the path the call
    /// gave, so that no other directory can be reached.
    pub fn read_target(filename: &str) -> (r: Result<String, ToolError>)
        ensures
            match file_name(filename@) {
                Some(n) => r matches Ok(s) && s@ == n,
                None => r matches Err(e) && e.message@ == "Invalid filename"@,
            },
    {
        match path_file_name(filename) {
            Some(n) => Ok(n),
            None => Err(ToolError::msg("Invalid filename")),
        }
    }

    /// The error for a document that is not in the documents directory.
    pub fn missing_document(name: &str) -> (e: ToolError)
        ensures
            e.message@ == "File '"@ + name@ + "' not found. It may not have been uploaded or was deleted."@,
    {
        let mut m = copy_str("File '");
        m.append(name);
        m.append("' not found. It may not have been uploaded or was deleted.");
        ToolError::new(m)
    }

    /// The converted markdown file read in place of a PDF, if `name` is one.
    pub fn markdown_sibling(name: &str) -> (r: Option<String>)
        ensures
            match r {
                Some(s) => has_suffix(name@, ".pdf"@) && s@ == name@ + ".md"@,
                None => !has_suffix(name@, ".pdf"@),
            },
    {
        if crate::text::ends_with(name, ".pdf") {
            let mut s = copy_str(name);
            s.append(".md");
            Some(s)
        } else {
            None
        }
    }

    /// The result text of `read` for the file read (or failed), `filename`
    /// being the name the call gave.
    pub fn read_result(filename: &str, content: Result<String, ToolError>) -> (r: String)
        ensures
            match content {
                Ok(c) => r@ == document_text(filename@, c@),
                Err(e) => r@ == "Error reading document: "@ + e.message@,
            },
    {
        match content {
            Err(e) => {
                let mut r = copy_str("Error reading document: ");
                r.append(e.message.as_str());
                r
            },
            Ok(content) => {
                if crate::text::is_blank(content.as_str()) {
                    let mut r = copy_str("The document '");
                    r.append(filename);
                    r.append("' is empty.");
                    r
                } else {
                    let v = crate::text::chars_of(content.as_str());
                    let (k, fits) = crate::text::fitting_prefix(v.as_slice(), 20000);
                    if !fits {
                        let head = crate::text::string_from_chars(
                            crate::text::slice_prefix(v.as_slice(), k),
                        );
                        let mut r = copy_str("=== Document: ");
                        r.append(filename);
                        r.append(" (TRUNCATED due to length) ===\n\n");
                        r.append(head.as_str());
                        r.append(
                            "\n\n...[DOCUMENT TRUNCATED: This file is over 20,000 characters and is too large to read entirely. Use search with specific queries to find exact paragraphs.]...",
                        );
                        r
                    } else {
                        let mut r = copy_str("=== Full Document: ");
                        r.append(filename);
                        r.append(" ===\n\n");
                        r.append(content.as_str());
                        r
                    }
                }
            },
        }
    }
}

/// The first value stored under `key`.
fn metadata_lookup(m: &Vec<(String, String)>, key: &str) -> (r: Option<String>)
    ensures
        match metadata_value(m@, key@) {
            Some(v) => r matches Some(s) && s@ == v,
            None => r is None,
        },
{
    let mut i: usize = 0;
    while i < m.len()
        invariant
            i <= m@.len(),
            metadata_value(m@.take(i as int), key@) is None,
        decreases m@.len() - i,
    {
        assert(m@.take(i + 1).drop_last() =~= m@.take(i as int));
        if str_eq(m[i].0.as_str(), key) {
            proof {
                lemma_value_prefix(m@, key@, i as int);
            }
            return Some(m[i].1.clone());
        }
        i = i + 1;
    }
    assert(m@.take(m@.len() as int) =~= m@);
    None
}

proof fn lemma_named_prefix(cs: Seq<Collection>, name: Seq<char>, i: int)
    requires
        0 <= i < cs.len(),
        collection_named(cs.take(i), name) is None,
        cs[i].name@ == name,
    ensures
        collection_named(cs, name) == Some(i),
    decreases cs.len(),
{
    if i + 1 == cs.len() {
        assert(cs.drop_last() =~= cs.take(i));
    } else {
        assert(cs.drop_last().take(i) =~= cs.take(i));
        lemma_named_prefix(cs.drop_last(), name, i);
    }
}

proof fn lemma_value_prefix(m: Seq<(String, String)>, key: Seq<char>, i: int)
    requires
        0 <= i < m.len(),
        metadata_value(m.take(i), key) is None,
        m[i].0@ == key,
    ensures
        metadata_value(m, key) == Some(m[i].1@),
    decreases m.len(),
{
    if i + 1 == m.len() {
        assert(m.drop_last() =~= m.take(i));
    } else {
        assert(m.drop_last().take(i) =~= m.take(i));
        lemma_value_prefix(m.drop_last(), key, i);
    }
}

} // verus!
