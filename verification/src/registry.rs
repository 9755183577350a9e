//! The registry of enabled tools: each tool is kept under its metadata id,
//! found again by id or by name, and never registered twice.
use vstd::prelude::*;
use crate::framework::{ToolError, ToolMetadata};
use crate::text::{copy_str, str_eq};

verus! {

/// A registered tool with what the registry knows of it: its metadata and the
/// function name its definition advertises.
pub struct RegisteredTool<T> {
    pub metadata: ToolMetadata,
    pub function_name: String,
    pub tool: T,
}

/// Registry of the available tools.
pub struct ToolRegistry<T> {
    entries: Vec<RegisteredTool<T>>,
}

/// Some entry has the id `id`.
pub open spec fn has_id<T>(entries: Seq<RegisteredTool<T>>, id: Seq<char>) -> bool {
    exists|i: int| 0 <= i < entries.len() && #[trigger] entries[i].metadata.id@ == id
}

/// No two entries share an id.
pub open spec fn ids_distinct<T>(entries: Seq<RegisteredTool<T>>) -> bool {
    forall|i: int, j: int|
        0 <= i < entries.len() && 0 <= j < entries.len() && i != j ==> #[trigger] entries[i].metadata.id@
            != #[trigger] entries[j].metadata.id@
}

/// The tool registered under `id`.
pub open spec fn tool_with_id<T>(entries: Seq<RegisteredTool<T>>, id: Seq<char>) -> Option<T>
    decreases entries.len(),
{
    if entries.len() == 0 {
        None
    } else if entries[0].metadata.id@ == id {
        Some(entries[0].tool)
    } else {
        tool_with_id(entries.drop_first(), id)
    }
}

/// Whether an entry answers to `name`: its metadata name or its function name.
pub open spec fn answers_to<T>(e: RegisteredTool<T>, name: Seq<char>) -> bool {
    e.metadata.name@ == name || e.function_name@ == name
}

/// The first registered tool that answers to `name`.
pub open spec fn tool_named<T>(entries: Seq<RegisteredTool<T>>, name: Seq<char>) -> Option<T>
    decreases entries.len(),
{
    if entries.len() == 0 {
        None
    } else if answers_to(entries[0], name) {
        Some(entries[0].tool)
    } else {
        tool_named(entries.drop_first(), name)
    }
}

/// The ids of the entries, in registration order.
pub open spec fn ids_of<T>(entries: Seq<RegisteredTool<T>>) -> Seq<Seq<char>> {
    entries.map_values(|e: RegisteredTool<T>| e.metadata.id@)
}

/// The metadata names of the entries, in registration order.
pub open spec fn names_of<T>(entries: Seq<RegisteredTool<T>>) -> Seq<Seq<char>> {
    entries.map_values(|e: RegisteredTool<T>| e.metadata.name@)
}

/// `Debug` rendering of a list of names (`format!("{:?}", names)`).
pub uninterp spec fn debug_list(names: Seq<Seq<char>>) -> Seq<char>;

/// Renders the names as `format!("{:?}", names)` does.
#[verifier::external_body]
fn format_debug_list(names: &Vec<String>) -> (r: String)
    ensures
        r@ == debug_list(names@.map_values(|s: String| s@)),
{
    format!("{:?}", names)
}

proof fn lemma_tool_with_id_found<T>(entries: Seq<RegisteredTool<T>>, id: Seq<char>, k: int)
    requires
        0 <= k < entries.len(),
        entries[k].metadata.id@ == id,
        forall|j: int| 0 <= j < k ==> #[trigger] entries[j].metadata.id@ != id,
    ensures
        tool_with_id(entries, id) == Some(entries[k].tool),
    decreases k,
{
    if k > 0 {
        assert forall|j: int| 0 <= j < k - 1 implies #[trigger] entries.drop_first()[j].metadata.id@
            != id by {
            assert(entries.drop_first()[j] == entries[j + 1]);
        }
        lemma_tool_with_id_found(entries.drop_first(), id, k - 1);
    }
}

proof fn lemma_tool_with_id_absent<T>(entries: Seq<RegisteredTool<T>>, id: Seq<char>)
    requires
        !has_id(entries, id),
    ensures
        tool_with_id(entries, id) is None,
    decreases entries.len(),
{
    if entries.len() > 0 {
        assert(entries[0].metadata.id@ != id);
        assert forall|i: int| 0 <= i < entries.drop_first().len() implies #[trigger] entries.drop_first()[i].metadata.id@
            != id by {
            assert(entries.drop_first()[i] == entries[i + 1]);
        }
        lemma_tool_with_id_absent(entries.drop_first(), id);
    }
}

proof fn lemma_tool_named_found<T>(entries: Seq<RegisteredTool<T>>, name: Seq<char>, k: int)
    requires
        0 <= k < entries.len(),
        answers_to(entries[k], name),
        forall|j: int| 0 <= j < k ==> !answers_to(#[trigger] entries[j], name),
    ensures
        tool_named(entries, name) == Some(entries[k].tool),
    decreases k,
{
    if k > 0 {
        assert forall|j: int| 0 <= j < k - 1 implies !answers_to(#[trigger] entries.drop_first()[j], name) by {
            assert(entries.drop_first()[j] == entries[j + 1]);
        }
        lemma_tool_named_found(entries.drop_first(), name, k - 1);
    }
}

proof fn lemma_tool_named_absent<T>(entries: Seq<RegisteredTool<T>>, name: Seq<char>)
    requires
        forall|j: int| 0 <= j < entries.len() ==> !answers_to(#[trigger] entries[j], name),
    ensures
        tool_named(entries, name) is None,
    decreases entries.len(),
{
    if entries.len() > 0 {
        assert(!answers_to(entries[0], name));
        assert forall|j: int| 0 <= j < entries.drop_first().len() implies !answers_to(#[trigger] entries.drop_first()[j], name) by {
            assert(entries.drop_first()[j] == entries[j + 1]);
        }
        lemma_tool_named_absent(entries.drop_first(), name);
    }
}

/// Law: a tool registered under a fresh id is found again by that id, and
/// every other id finds what it found before.
pub proof fn law_lookup_after_register<T>(entries: Seq<RegisteredTool<T>>, e: RegisteredTool<T>, other: Seq<char>)
    requires
        ids_distinct(entries),
        !has_id(entries, e.metadata.id@),
    ensures
        tool_with_id(entries.push(e), e.metadata.id@) == Some(e.tool),
        other != e.metadata.id@ ==> tool_with_id(entries.push(e), other) == tool_with_id(entries, other),
        ids_distinct(entries.push(e)),
{
    let after = entries.push(e);
    assert forall|j: int| 0 <= j < entries.len() implies #[trigger] after[j].metadata.id@ != e.metadata.id@ by {
        assert(after[j] == entries[j]);
    }
    lemma_tool_with_id_found(after, e.metadata.id@, entries.len() as int);
    if other != e.metadata.id@ {
        if has_id(entries, other) {
            let k = choose|k: int| 0 <= k < entries.len() && #[trigger] entries[k].metadata.id@ == other;
            assert forall|j: int| 0 <= j < k implies #[trigger] entries[j].metadata.id@ != other by {}
            lemma_tool_with_id_found(entries, other, k);
            assert forall|j: int| 0 <= j < k implies #[trigger] after[j].metadata.id@ != other by {
                assert(after[j] == entries[j]);
            }
            assert(after[k] == entries[k]);
            lemma_tool_with_id_found(after, other, k);
        } else {
            lemma_tool_with_id_absent(entries, other);
            assert forall|i: int| 0 <= i < after.len() implies #[trigger] after[i].metadata.id@ != other by {
                if i < entries.len() {
                    assert(after[i] == entries[i]);
                }
            }
            lemma_tool_with_id_absent(after, other);
        }
    }
    assert forall|i: int, j: int|
        0 <= i < after.len() && 0 <= j < after.len() && i != j implies #[trigger] after[i].metadata.id@
        != #[trigger] after[j].metadata.id@ by {
        if i < entries.len() && j < entries.len() {
            assert(after[i] == entries[i]);
            assert(after[j] == entries[j]);
        } else if i < entries.len() {
            assert(after[i] == entries[i]);
        } else if j < entries.len() {
            assert(after[j] == entries[j]);
        }
    }
}

/// Law: an id is registered exactly when a tool is found under it.
pub proof fn law_registered_iff_found<T>(entries: Seq<RegisteredTool<T>>, id: Seq<char>)
    ensures
        has_id(entries, id) == (tool_with_id(entries, id) is Some),
{
    if has_id(entries, id) {
        let k = choose|k: int| 0 <= k < entries.len() && #[trigger] entries[k].metadata.id@ == id;
        let m = find_first_id(entries, id, k);
        lemma_tool_with_id_found(entries, id, m);
    } else {
        lemma_tool_with_id_absent(entries, id);
    }
}

proof fn find_first_id<T>(entries: Seq<RegisteredTool<T>>, id: Seq<char>, k: int) -> (m: int)
    requires
        0 <= k < entries.len(),
        entries[k].metadata.id@ == id,
    ensures
        0 <= m <= k,
        entries[m].metadata.id@ == id,
        forall|j: int| 0 <= j < m ==> #[trigger] entries[j].metadata.id@ != id,
    decreases k,
{
    if exists|j: int| 0 <= j < k && #[trigger] entries[j].metadata.id@ == id {
        let j = choose|j: int| 0 <= j < k && #[trigger] entries[j].metadata.id@ == id;
        find_first_id(entries, id, j)
    } else {
        k
    }
}

/// The entries after offering `e` for registration: added when it is
/// available and its id is new, else left as they were.
pub open spec fn registered_after<T>(entries: Seq<RegisteredTool<T>>, e: RegisteredTool<T>, available: bool) -> Seq<
    RegisteredTool<T>,
> {
    if available && !has_id(entries, e.metadata.id@) {
        entries.push(e)
    } else {
        entries
    }
}

/// The entries after offering each of `offers` (a tool and whether it is
/// available) in turn.
pub open spec fn after_offers<T>(entries: Seq<RegisteredTool<T>>, offers: Seq<(RegisteredTool<T>, bool)>) -> Seq<
    RegisteredTool<T>,
>
    decreases offers.len(),
{
    if offers.len() == 0 {
        entries
    } else {
        after_offers(registered_after(entries, offers[0].0, offers[0].1), offers.drop_first())
    }
}

/// The refusals of offering each of `offers` in turn: one for each
/// available tool whose id is registered by then.
pub open spec fn refusals<T>(entries: Seq<RegisteredTool<T>>, offers: Seq<(RegisteredTool<T>, bool)>) -> Seq<
    Seq<char>,
>
    decreases offers.len(),
{
    if offers.len() == 0 {
        Seq::empty()
    } else {
        let (e, available) = offers[0];
        let here = if available && has_id(entries, e.metadata.id@) {
            seq!["Tool with ID '"@ + e.metadata.id@ + "' already registered"@]
        } else {
            Seq::empty()
        };
        here + refusals(registered_after(entries, e, available), offers.drop_first())
    }
}

proof fn lemma_after_offers_extends<T>(entries: Seq<RegisteredTool<T>>, offers: Seq<(RegisteredTool<T>, bool)>)
    requires
        ids_distinct(entries),
    ensures
        ids_distinct(after_offers(entries, offers)),
        after_offers(entries, offers).len() >= entries.len(),
        after_offers(entries, offers).subrange(0, entries.len() as int) == entries,
        forall|i: int|
            entries.len() <= i < after_offers(entries, offers).len() ==> exists|j: int|
                0 <= j < offers.len() && offers[j].1 && #[trigger] offers[j].0 == #[trigger] after_offers(
                    entries,
                    offers,
                )[i],
    decreases offers.len(),
{
    if offers.len() > 0 {
        let next = registered_after(entries, offers[0].0, offers[0].1);
        if offers[0].1 && !has_id(entries, offers[0].0.metadata.id@) {
            law_lookup_after_register(entries, offers[0].0, offers[0].0.metadata.id@);
        }
        lemma_after_offers_extends(next, offers.drop_first());
        let all = after_offers(entries, offers);
        assert(all == after_offers(next, offers.drop_first()));
        assert(all.subrange(0, entries.len() as int) =~= entries) by {
            assert(all.subrange(0, next.len() as int) == next);
            assert forall|i: int| 0 <= i < entries.len() implies all[i] == entries[i] by {
                assert(all.subrange(0, next.len() as int)[i] == all[i]);
            }
        }
        assert forall|i: int| entries.len() <= i < all.len() implies exists|j: int|
            0 <= j < offers.len() && offers[j].1 && #[trigger] offers[j].0 == #[trigger] all[i] by {
            if i < next.len() {
                assert(all.subrange(0, next.len() as int)[i] == all[i]);
                assert(offers[0].0 == all[i]);
            } else {
                let j = choose|j: int|
                    0 <= j < offers.drop_first().len() && offers.drop_first()[j].1 && #[trigger] offers.drop_first()[j].0
                        == #[trigger] all[i];
                assert(offers.drop_first()[j] == offers[j + 1]);
            }
        }
    }
}

proof fn lemma_has_id_prefix<T>(entries: Seq<RegisteredTool<T>>, longer: Seq<RegisteredTool<T>>, id: Seq<char>)
    requires
        longer.len() >= entries.len(),
        longer.subrange(0, entries.len() as int) == entries,
        has_id(entries, id),
    ensures
        has_id(longer, id),
{
    let k = choose|k: int| 0 <= k < entries.len() && #[trigger] entries[k].metadata.id@ == id;
    assert(longer.subrange(0, entries.len() as int)[k] == longer[k]);
}

proof fn lemma_offered_ids_present<T>(entries: Seq<RegisteredTool<T>>, offers: Seq<(RegisteredTool<T>, bool)>, j: int)
    requires
        ids_distinct(entries),
        0 <= j < offers.len(),
        offers[j].1,
    ensures
        has_id(after_offers(entries, offers), offers[j].0.metadata.id@),
    decreases offers.len(),
{
    let next = registered_after(entries, offers[0].0, offers[0].1);
    if offers[0].1 && !has_id(entries, offers[0].0.metadata.id@) {
        law_lookup_after_register(entries, offers[0].0, offers[0].0.metadata.id@);
    }
    lemma_after_offers_extends(next, offers.drop_first());
    if j == 0 {
        if !has_id(entries, offers[0].0.metadata.id@) {
            assert(next[entries.len() as int] == offers[0].0);
        }
        assert(has_id(next, offers[0].0.metadata.id@));
        lemma_has_id_prefix(next, after_offers(next, offers.drop_first()), offers[0].0.metadata.id@);
    } else {
        assert(offers.drop_first()[j - 1] == offers[j]);
        lemma_offered_ids_present(next, offers.drop_first(), j - 1);
    }
}

proof fn lemma_known_offers_change_nothing<T>(entries: Seq<RegisteredTool<T>>, offers: Seq<(RegisteredTool<T>, bool)>)
    requires
        forall|j: int| 0 <= j < offers.len() && offers[j].1 ==> has_id(entries, #[trigger] offers[j].0.metadata.id@),
    ensures
        after_offers(entries, offers) == entries,
    decreases offers.len(),
{
    if offers.len() > 0 {
        assert(registered_after(entries, offers[0].0, offers[0].1) == entries);
        assert forall|j: int| 0 <= j < offers.drop_first().len() && offers.drop_first()[j].1 implies has_id(
            entries,
            #[trigger] offers.drop_first()[j].0.metadata.id@,
        ) by {
            assert(offers.drop_first()[j] == offers[j + 1]);
        }
        lemma_known_offers_change_nothing(entries, offers.drop_first());
    }
}

/// Law: registering keeps what was there. Every id registered before still
/// finds the same tool, ids stay unique, and every entry added is one of the
/// offered tools that was available.
pub proof fn law_registering_keeps_registered_tools<T>(
    entries: Seq<RegisteredTool<T>>,
    offers: Seq<(RegisteredTool<T>, bool)>,
    id: Seq<char>,
)
    requires
        ids_distinct(entries),
    ensures
        ids_distinct(after_offers(entries, offers)),
        has_id(entries, id) ==> tool_with_id(after_offers(entries, offers), id) == tool_with_id(entries, id),
        forall|i: int|
            entries.len() <= i < after_offers(entries, offers).len() ==> exists|j: int|
                0 <= j < offers.len() && offers[j].1 && #[trigger] offers[j].0 == #[trigger] after_offers(
                    entries,
                    offers,
                )[i],
        offers.len() == 0 ==> after_offers(entries, offers) == entries,
{
    lemma_after_offers_extends(entries, offers);
    let all = after_offers(entries, offers);
    if has_id(entries, id) {
        let k0 = choose|k: int| 0 <= k < entries.len() && #[trigger] entries[k].metadata.id@ == id;
        let k = find_first_id(entries, id, k0);
        lemma_tool_with_id_found(entries, id, k);
        assert forall|j: int| 0 <= j < k implies #[trigger] all[j].metadata.id@ != id by {
            assert(all.subrange(0, entries.len() as int)[j] == all[j]);
        }
        assert(all.subrange(0, entries.len() as int)[k] == all[k]);
        lemma_tool_with_id_found(all, id, k);
    }
}

/// Law: offering the same tools a second time changes nothing: every
/// available tool's id is registered after the first time, so the second
/// time refuses or skips each of them.
pub proof fn law_registering_twice_changes_nothing<T>(
    entries: Seq<RegisteredTool<T>>,
    offers: Seq<(RegisteredTool<T>, bool)>,
)
    requires
        ids_distinct(entries),
    ensures
        after_offers(after_offers(entries, offers), offers) == after_offers(entries, offers),
{
    let once = after_offers(entries, offers);
    assert forall|j: int| 0 <= j < offers.len() && offers[j].1 implies has_id(once, #[trigger] offers[j].0.metadata.id@) by {
        lemma_offered_ids_present(entries, offers, j);
    }
    lemma_known_offers_change_nothing(once, offers);
}

impl<T> ToolRegistry<T> {
    /// The registered entries, in registration order.
    pub closed spec fn entries(&self) -> Seq<RegisteredTool<T>> {
        self.entries@
    }

    /// The registry's invariant: ids are unique.
    #[verifier::type_invariant]
    spec fn ids_unique(self) -> bool {
        ids_distinct(self.entries@)
    }

    /// Ids are unique: what every registry keeps.
    pub open spec fn wf(&self) -> bool {
        ids_distinct(self.entries())
    }

    /// An empty registry.
    pub fn new() -> (r: Self)
        ensures
            r.entries().len() == 0,
            r.wf(),
    {
        ToolRegistry { entries: Vec::new() }
    }

    /// Registers a tool. An unavailable tool is skipped without error; a tool
    /// whose id is already registered is refused.
    pub fn register(&mut self, metadata: ToolMetadata, function_name: String, available: bool, tool: T) -> (r: Result<(), ToolError>)
        ensures
            final(self).wf(),
            !available ==> r is Ok && final(self).entries() == old(self).entries(),
            available && has_id(old(self).entries(), metadata.id@) ==> (r matches Err(e) && e.message@ == "Tool with ID '"@ + metadata.id@
                + "' already registered"@) && final(self).entries() == old(self).entries(),
            available && !has_id(old(self).entries(), metadata.id@) ==> r is Ok && final(self).entries()
                == old(self).entries().push(RegisteredTool { metadata, function_name, tool }),
            final(self).entries() == registered_after(
                old(self).entries(),
                RegisteredTool { metadata, function_name, tool },
                available,
            ),
    {
        proof {
            use_type_invariant(&*self);
        }
        if !available {
            return Ok(());
        }
        if self.is_registered(metadata.id.as_str()) {
            let mut m = copy_str("Tool with ID '");
            m.append(metadata.id.as_str());
            m.append("' already registered");
            return Err(ToolError::new(m));
        }
        let ghost before = self.entries@;
        let e = RegisteredTool { metadata, function_name, tool };
        proof {
            law_lookup_after_register(before, e, e.metadata.id@);
        }
        let mut entries: Vec<RegisteredTool<T>> = Vec::new();
        std::mem::swap(&mut entries, &mut self.entries);
        entries.push(e);
        self.entries = entries;
        Ok(())
    }

    /// Offers each tool in turn, as `register` does, and returns the
    /// refusals, for the caller to report.
    pub fn register_all(&mut self, offers: Vec<(RegisteredTool<T>, bool)>) -> (errors: Vec<ToolError>)
        ensures
            final(self).wf(),
            final(self).entries() == after_offers(old(self).entries(), offers@),
            errors@.map_values(|e: ToolError| e.message@) == refusals(old(self).entries(), offers@),
    {
        proof {
            use_type_invariant(&*self);
        }
        let ghost start = self.entries@;
        let mut errors: Vec<ToolError> = Vec::new();
        let mut rest = offers;
        assert(errors@.map_values(|e: ToolError| e.message@) + refusals(start, offers@) =~= refusals(start, offers@));
        while rest.len() > 0
            invariant
                self.wf(),
                after_offers(self.entries(), rest@) == after_offers(start, offers@),
                errors@.map_values(|e: ToolError| e.message@) + refusals(self.entries(), rest@) == refusals(
                    start,
                    offers@,
                ),
            decreases rest@.len(),
        {
            let ghost before_rest = rest@;
            let ghost cur = self.entries();
            let ghost msgs = errors@.map_values(|e: ToolError| e.message@);
            let (e, available) = rest.remove(0);
            assert(before_rest[0] == (e, available));
            assert(before_rest.drop_first() =~= rest@);
            let RegisteredTool { metadata, function_name, tool } = e;
            let r = self.register(metadata, function_name, available, tool);
            match r {
                Err(err) => {
                    errors.push(err);
                    assert(errors@.map_values(|e: ToolError| e.message@) =~= msgs.push(
                        "Tool with ID '"@ + e.metadata.id@ + "' already registered"@,
                    ));
                    assert(msgs + refusals(cur, before_rest) =~= errors@.map_values(|e: ToolError| e.message@)
                        + refusals(self.entries(), rest@));
                },
                Ok(_) => {
                    assert(errors@.map_values(|e: ToolError| e.message@) == msgs);
                    assert(refusals(cur, before_rest) =~= refusals(self.entries(), rest@));
                },
            }
        }
        assert(errors@.map_values(|e: ToolError| e.message@) + Seq::<Seq<char>>::empty() =~= errors@.map_values(
            |e: ToolError| e.message@,
        ));
        errors
    }

    /// Whether a tool is registered under `tool_id`.
    pub fn is_registered(&self, tool_id: &str) -> (b: bool)
        ensures
            b == has_id(self.entries(), tool_id@),
    {
        let mut i: usize = 0;
        while i < self.entries.len()
            invariant
                i <= self.entries@.len(),
                forall|j: int| 0 <= j < i ==> #[trigger] self.entries@[j].metadata.id@ != tool_id@,
            decreases self.entries@.len() - i,
        {
            if str_eq(self.entries[i].metadata.id.as_str(), tool_id) {
                return true;
            }
            i = i + 1;
        }
        false
    }

    /// The tool registered under `tool_id`.
    pub fn get_tool(&self, tool_id: &str) -> (r: Option<&T>)
        ensures
            match r {
                Some(t) => tool_with_id(self.entries(), tool_id@) == Some(*t),
                None => tool_with_id(self.entries(), tool_id@) is None,
            },
    {
        let mut i: usize = 0;
        while i < self.entries.len()
            invariant
                i <= self.entries@.len(),
                forall|j: int| 0 <= j < i ==> #[trigger] self.entries@[j].metadata.id@ != tool_id@,
            decreases self.entries@.len() - i,
        {
            if str_eq(self.entries[i].metadata.id.as_str(), tool_id) {
                proof {
                    lemma_tool_with_id_found(self.entries@, tool_id@, i as int);
                }
                return Some(&self.entries[i].tool);
            }
            i = i + 1;
        }
        proof {
            lemma_tool_with_id_absent(self.entries@, tool_id@);
        }
        None
    }

    /// The first tool whose metadata name or function name is `name`.
    pub fn get_tool_by_name(&self, name: &str) -> (r: Option<&T>)
        ensures
            match r {
                Some(t) => tool_named(self.entries(), name@) == Some(*t),
                None => tool_named(self.entries(), name@) is None,
            },
    {
        let mut i: usize = 0;
        while i < self.entries.len()
            invariant
                i <= self.entries@.len(),
                forall|j: int| 0 <= j < i ==> !answers_to(#[trigger] self.entries@[j], name@),
            decreases self.entries@.len() - i,
        {
            let e = &self.entries[i];
            if str_eq(e.metadata.name.as_str(), name) || str_eq(e.function_name.as_str(), name) {
                proof {
                    lemma_tool_named_found(self.entries@, name@, i as int);
                }
                return Some(&e.tool);
            }
            i = i + 1;
        }
        proof {
            lemma_tool_named_absent(self.entries@, name@);
        }
        None
    }

    /// The registered ids, in registration order.
    pub fn get_all_tool_ids(&self) -> (r: Vec<String>)
        ensures
            r@.map_values(|s: String| s@) == ids_of(self.entries()),
    {
        let mut r: Vec<String> = Vec::new();
        let mut i: usize = 0;
        while i < self.entries.len()
            invariant
                i <= self.entries@.len(),
                r@.len() == i,
                forall|j: int| 0 <= j < i ==> #[trigger] r@[j]@ == self.entries@[j].metadata.id@,
            decreases self.entries@.len() - i,
        {
            r.push(self.entries[i].metadata.id.clone());
            i = i + 1;
        }
        assert(r@.map_values(|s: String| s@) =~= ids_of(self.entries@));
        r
    }

    /// The registered tools, in registration order.
    pub fn get_all_tools(&self) -> (r: Vec<&T>)
        ensures
            r@.len() == self.entries().len(),
            forall|i: int| 0 <= i < r@.len() ==> *#[trigger] r@[i] == self.entries()[i].tool,
    {
        let mut r: Vec<&T> = Vec::new();
        let mut i: usize = 0;
        while i < self.entries.len()
            invariant
                i <= self.entries@.len(),
                r@.len() == i,
                forall|j: int| 0 <= j < i ==> *#[trigger] r@[j] == self.entries@[j].tool,
            decreases self.entries@.len() - i,
        {
            r.push(&self.entries[i].tool);
            i = i + 1;
        }
        r
    }

    /// The registered entries with their metadata, in registration order.
    pub fn registered(&self) -> (r: &[RegisteredTool<T>])
        ensures
            r@ == self.entries(),
    {
        self.entries.as_slice()
    }

    /// The number of registered tools.
    pub fn count(&self) -> (n: usize)
        ensures
            n == self.entries().len(),
    {
        self.entries.len()
    }

    /// The tool a call names, or the error listing what is available.
    pub fn tool_for_call(&self, name: &str) -> (r: Result<&T, ToolError>)
        ensures
            match r {
                Ok(t) => tool_named(self.entries(), name@) == Some(*t),
                Err(e) => tool_named(self.entries(), name@) is None && e.message@ == "Tool '"@
                    + name@ + "' not found. Available tools: "@ + debug_list(names_of(self.entries())),
            },
    {
        match self.get_tool_by_name(name) {
            Some(t) => Ok(t),
            None => {
                let mut names: Vec<String> = Vec::new();
                let mut i: usize = 0;
                while i < self.entries.len()
                    invariant
                        i <= self.entries@.len(),
                        names@.len() == i,
                        forall|j: int| 0 <= j < i ==> #[trigger] names@[j]@ == self.entries@[j].metadata.name@,
                    decreases self.entries@.len() - i,
                {
                    names.push(self.entries[i].metadata.name.clone());
                    i = i + 1;
                }
                assert(names@.map_values(|s: String| s@) =~= names_of(self.entries@));
                let listed = format_debug_list(&names);
                let mut m = copy_str("Tool '");
                m.append(name);
                m.append("' not found. Available tools: ");
                m.append(listed.as_str());
                Err(ToolError::new(m))
            },
        }
    }
}

} // verus!
