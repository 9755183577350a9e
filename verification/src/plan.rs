//! Which tools an agent configuration registers, and in what order. Building a
//! tool and registering it is left to the caller; the decisions are here.
use vstd::prelude::*;
use crate::framework::ToolType;
use crate::registry::{after_offers, has_id, ids_distinct, law_registering_keeps_registered_tools, tool_with_id, RegisteredTool};

verus! {

/// A concrete tool that registration may build.
#[derive(Debug, Clone, Copy, PartialEq, Eq, Structural)]
pub enum ToolKind {
    ChromaDB,
    PageIndex,
    GitHubPublic,
    GitHubAuthenticated,
    Currency,
    Crypto,
    Stock,
    AskHuman,
    Weather,
    Forecast,
    Email,
    GoogleGmail,
    GoogleGmailRead,
    GoogleCalendar,
    GoogleCalendarRead,
    GoogleDriveSearch,
    GoogleDriveRead,
    GoogleDocsRead,
    GoogleDocsWrite,
    GoogleSheetsRead,
    GoogleSheetsWrite,
    GoogleTasksRead,
    GoogleTasksWrite,
    GoogleContactsRead,
    GoogleYouTubeRead,
    GooglePlacesSearch,
    BlueskyPost,
    FacebookPost,
    FacebookReadPosts,
    FacebookReadComments,
    FacebookReadMessages,
    FacebookSendMessage,
    FacebookBusinessPages,
}

/// Context for tool registration: what the configuration does not hold.
pub struct RegisterContext {
    /// Address of the vector store, when one is configured.
    pub chroma_address: Option<String>,
}

/// `enabled` holds `t`.
pub open spec fn enables(enabled: Seq<ToolType>, t: ToolType) -> bool {
    enabled.contains(t)
}

/// `k` alone when `b` holds, nothing otherwise.
pub open spec fn when(b: bool, k: ToolKind) -> Seq<ToolKind> {
    if b {
        seq![k]
    } else {
        Seq::empty()
    }
}

/// Whether any Google Workspace tool (other than Places) is enabled.
pub open spec fn wants_google(e: Seq<ToolType>) -> bool {
    ||| enables(e, ToolType::GoogleGmail)
    ||| enables(e, ToolType::GoogleCalendar)
    ||| enables(e, ToolType::GoogleGmailRead)
    ||| enables(e, ToolType::GoogleCalendarRead)
    ||| enables(e, ToolType::GoogleDriveSearch)
    ||| enables(e, ToolType::GoogleDriveRead)
    ||| enables(e, ToolType::GoogleDocsRead)
    ||| enables(e, ToolType::GoogleDocsWrite)
    ||| enables(e, ToolType::GoogleSheetsRead)
    ||| enables(e, ToolType::GoogleSheetsWrite)
    ||| enables(e, ToolType::GoogleTasksRead)
    ||| enables(e, ToolType::GoogleTasksWrite)
    ||| enables(e, ToolType::GoogleContactsRead)
    ||| enables(e, ToolType::GoogleYouTubeRead)
}

/// The Google Workspace tools, each with the kind that enables it, in
/// registration order.
pub open spec fn google_table() -> Seq<(ToolType, ToolKind)> {
    seq![
        (ToolType::GoogleGmail, ToolKind::GoogleGmail),
        (ToolType::GoogleGmailRead, ToolKind::GoogleGmailRead),
        (ToolType::GoogleCalendar, ToolKind::GoogleCalendar),
        (ToolType::GoogleCalendarRead, ToolKind::GoogleCalendarRead),
        (ToolType::GoogleDriveSearch, ToolKind::GoogleDriveSearch),
        (ToolType::GoogleDriveRead, ToolKind::GoogleDriveRead),
        (ToolType::GoogleDocsRead, ToolKind::GoogleDocsRead),
        (ToolType::GoogleDocsWrite, ToolKind::GoogleDocsWrite),
        (ToolType::GoogleSheetsRead, ToolKind::GoogleSheetsRead),
        (ToolType::GoogleSheetsWrite, ToolKind::GoogleSheetsWrite),
        (ToolType::GoogleTasksRead, ToolKind::GoogleTasksRead),
        (ToolType::GoogleTasksWrite, ToolKind::GoogleTasksWrite),
        (ToolType::GoogleContactsRead, ToolKind::GoogleContactsRead),
        (ToolType::GoogleYouTubeRead, ToolKind::GoogleYouTubeRead),
    ]
}

/// The tools of `table` whose kind is enabled, in table order.
pub open spec fn kinds_from(e: Seq<ToolType>, table: Seq<(ToolType, ToolKind)>) -> Seq<ToolKind>
    decreases table.len(),
{
    if table.len() == 0 {
        Seq::empty()
    } else {
        kinds_from(e, table.drop_last()) + when(enables(e, table.last().0), table.last().1)
    }
}

/// The Google Workspace tools enabled, in registration order.
pub open spec fn google_kinds(e: Seq<ToolType>) -> Seq<ToolKind> {
    kinds_from(e, google_table())
}

/// The utility tools registered: Ask Human, Weather with Forecast, Email, the
/// Google Workspace tools (only when OAuth is configured and its provider
/// could be built) and Google Places.
pub open spec fn utility_kinds(e: Seq<ToolType>, oauth_configured: bool, oauth_ready: bool) -> Seq<
    ToolKind,
> {
    when(enables(e, ToolType::AskHuman), ToolKind::AskHuman) + (if enables(e, ToolType::Weather) {
        seq![ToolKind::Weather, ToolKind::Forecast]
    } else {
        Seq::empty()
    }) + when(enables(e, ToolType::Email), ToolKind::Email) + (if wants_google(e)
        && oauth_configured && oauth_ready {
        google_kinds(e)
    } else {
        Seq::empty()
    }) + when(enables(e, ToolType::GooglePlacesSearch), ToolKind::GooglePlacesSearch)
}

/// The database tools registered: the knowledge base only when a store address
/// is configured.
pub open spec fn database_kinds(e: Seq<ToolType>, has_address: bool) -> Seq<ToolKind> {
    when(enables(e, ToolType::ChromaDB) && has_address, ToolKind::ChromaDB) + when(
        enables(e, ToolType::PageIndex),
        ToolKind::PageIndex,
    )
}

/// The development tools registered.
pub open spec fn development_kinds(e: Seq<ToolType>) -> Seq<ToolKind> {
    when(enables(e, ToolType::GitHubPublic), ToolKind::GitHubPublic) + when(
        enables(e, ToolType::GitHubAuthenticated),
        ToolKind::GitHubAuthenticated,
    )
}

/// The financial tools registered: crypto and stock only when their API key
/// is available.
pub open spec fn financial_kinds(e: Seq<ToolType>, crypto_available: bool, stock_available: bool) -> Seq<
    ToolKind,
> {
    when(enables(e, ToolType::Currency), ToolKind::Currency) + when(
        enables(e, ToolType::Crypto) && crypto_available,
        ToolKind::Crypto,
    ) + when(enables(e, ToolType::Stock) && stock_available, ToolKind::Stock)
}

/// The social tools registered.
pub open spec fn social_kinds(e: Seq<ToolType>) -> Seq<ToolKind> {
    when(enables(e, ToolType::BlueskyPost), ToolKind::BlueskyPost) + when(
        enables(e, ToolType::FacebookPost),
        ToolKind::FacebookPost,
    ) + when(enables(e, ToolType::FacebookPostsRead), ToolKind::FacebookReadPosts) + when(
        enables(e, ToolType::FacebookCommentsRead),
        ToolKind::FacebookReadComments,
    ) + when(enables(e, ToolType::FacebookMessagesRead), ToolKind::FacebookReadMessages) + when(
        enables(e, ToolType::FacebookMessageSend),
        ToolKind::FacebookSendMessage,
    ) + when(enables(e, ToolType::FacebookBusinessPagesRead), ToolKind::FacebookBusinessPages)
}

/// Whether `enabled` holds `t`.
pub fn is_enabled(enabled: &[ToolType], t: ToolType) -> (b: bool)
    ensures
        b == enables(enabled@, t),
{
    let mut i: usize = 0;
    while i < enabled.len()
        invariant
            i <= enabled@.len(),
            forall|j: int| 0 <= j < i ==> enabled@[j] != t,
        decreases enabled@.len() - i,
    {
        if enabled[i] == t {
            assert(enabled@[i as int] == t);
            return true;
        }
        i = i + 1;
    }
    proof {
        if enabled@.contains(t) {
            let k = choose|k: int| 0 <= k < enabled@.len() && enabled@[k] == t;
            assert(enabled@[k] == t);
        }
    }
    false
}

fn push_when(out: &mut Vec<ToolKind>, enabled: &[ToolType], t: ToolType, k: ToolKind)
    ensures
        final(out)@ == old(out)@ + when(enables(enabled@, t), k),
{
    if is_enabled(enabled, t) {
        out.push(k);
        assert(final(out)@ =~= old(out)@ + seq![k]);
    } else {
        assert(old(out)@ + Seq::<ToolKind>::empty() =~= old(out)@);
    }
}

/// The utility tools to register. `oauth_configured` says whether the Google
/// OAuth credentials are present and `oauth_ready` whether the OAuth provider
/// could be built from them.
pub fn utility_plan(enabled: &[ToolType], oauth_configured: bool, oauth_ready: bool) -> (r: Vec<
    ToolKind,
>)
    ensures
        r@ == utility_kinds(enabled@, oauth_configured, oauth_ready),
{
    let mut r: Vec<ToolKind> = Vec::new();
    push_when(&mut r, enabled, ToolType::AskHuman, ToolKind::AskHuman);
    let ghost a = r@;
    if is_enabled(enabled, ToolType::Weather) {
        r.push(ToolKind::Weather);
        r.push(ToolKind::Forecast);
        assert(r@ =~= a + seq![ToolKind::Weather, ToolKind::Forecast]);
    } else {
        assert(r@ =~= a + Seq::<ToolKind>::empty());
    }
    push_when(&mut r, enabled, ToolType::Email, ToolKind::Email);
    let ghost b = r@;
    if wants_google_tools(enabled) && oauth_configured && oauth_ready {
        push_google(&mut r, enabled);
    } else {
        assert(r@ =~= b + Seq::<ToolKind>::empty());
    }
    let ghost c = r@;
    push_when(&mut r, enabled, ToolType::GooglePlacesSearch, ToolKind::GooglePlacesSearch);
    assert(r@ =~= utility_kinds(enabled@, oauth_configured, oauth_ready));
    r
}

/// Whether any Google Workspace tool (other than Places) is enabled.
fn wants_google_tools(enabled: &[ToolType]) -> (b: bool)
    ensures
        b == wants_google(enabled@),
{
    is_enabled(enabled, ToolType::GoogleGmail) || is_enabled(enabled, ToolType::GoogleCalendar)
        || is_enabled(enabled, ToolType::GoogleGmailRead) || is_enabled(
        enabled,
        ToolType::GoogleCalendarRead,
    ) || is_enabled(enabled, ToolType::GoogleDriveSearch) || is_enabled(
        enabled,
        ToolType::GoogleDriveRead,
    ) || is_enabled(enabled, ToolType::GoogleDocsRead) || is_enabled(
        enabled,
        ToolType::GoogleDocsWrite,
    ) || is_enabled(enabled, ToolType::GoogleSheetsRead) || is_enabled(
        enabled,
        ToolType::GoogleSheetsWrite,
    ) || is_enabled(enabled, ToolType::GoogleTasksRead) || is_enabled(
        enabled,
        ToolType::GoogleTasksWrite,
    ) || is_enabled(enabled, ToolType::GoogleContactsRead) || is_enabled(
        enabled,
        ToolType::GoogleYouTubeRead,
    )
}

fn push_google(r: &mut Vec<ToolKind>, enabled: &[ToolType])
    ensures
        final(r)@ == old(r)@ + google_kinds(enabled@),
{
    let table: [(ToolType, ToolKind); 14] = [
        (ToolType::GoogleGmail, ToolKind::GoogleGmail),
        (ToolType::GoogleGmailRead, ToolKind::GoogleGmailRead),
        (ToolType::GoogleCalendar, ToolKind::GoogleCalendar),
        (ToolType::GoogleCalendarRead, ToolKind::GoogleCalendarRead),
        (ToolType::GoogleDriveSearch, ToolKind::GoogleDriveSearch),
        (ToolType::GoogleDriveRead, ToolKind::GoogleDriveRead),
        (ToolType::GoogleDocsRead, ToolKind::GoogleDocsRead),
        (ToolType::GoogleDocsWrite, ToolKind::GoogleDocsWrite),
        (ToolType::GoogleSheetsRead, ToolKind::GoogleSheetsRead),
        (ToolType::GoogleSheetsWrite, ToolKind::GoogleSheetsWrite),
        (ToolType::GoogleTasksRead, ToolKind::GoogleTasksRead),
        (ToolType::GoogleTasksWrite, ToolKind::GoogleTasksWrite),
        (ToolType::GoogleContactsRead, ToolKind::GoogleContactsRead),
        (ToolType::GoogleYouTubeRead, ToolKind::GoogleYouTubeRead),
    ];
    assert(table@ =~= google_table());
    let ghost start = r@;
    let mut i: usize = 0;
    assert(table@.take(0) =~= Seq::<(ToolType, ToolKind)>::empty());
    assert(start + kinds_from(enabled@, table@.take(0)) =~= start);
    while i < 14
        invariant
            i <= 14,
            table@ == google_table(),
            r@ == start + kinds_from(enabled@, table@.take(i as int)),
        decreases 14 - i,
    {
        let (t, k) = table[i];
        assert(table@.take(i + 1).drop_last() =~= table@.take(i as int));
        assert(table@.take(i + 1).last() == (t, k));
        push_when(r, enabled, t, k);
        assert(r@ =~= start + kinds_from(enabled@, table@.take(i + 1)));
        i = i + 1;
    }
    assert(table@.take(14) =~= table@);
}

/// The database tools to register.
pub fn database_plan(enabled: &[ToolType], context: &RegisterContext) -> (r: Vec<ToolKind>)
    ensures
        r@ == database_kinds(enabled@, context.chroma_address is Some),
{
    let mut r: Vec<ToolKind> = Vec::new();
    if is_enabled(enabled, ToolType::ChromaDB) && context.chroma_address.is_some() {
        r.push(ToolKind::ChromaDB);
    }
    let ghost a = r@;
    push_when(&mut r, enabled, ToolType::PageIndex, ToolKind::PageIndex);
    assert(r@ =~= database_kinds(enabled@, context.chroma_address is Some));
    r
}

/// The development tools to register.
pub fn development_plan(enabled: &[ToolType]) -> (r: Vec<ToolKind>)
    ensures
        r@ == development_kinds(enabled@),
{
    let mut r: Vec<ToolKind> = Vec::new();
    push_when(&mut r, enabled, ToolType::GitHubPublic, ToolKind::GitHubPublic);
    push_when(&mut r, enabled, ToolType::GitHubAuthenticated, ToolKind::GitHubAuthenticated);
    assert(r@ =~= development_kinds(enabled@));
    r
}

/// The financial tools to register, given whether the crypto and stock tools
/// report themselves available.
pub fn financial_plan(enabled: &[ToolType], crypto_available: bool, stock_available: bool) -> (r:
    Vec<ToolKind>)
    ensures
        r@ == financial_kinds(enabled@, crypto_available, stock_available),
{
    let mut r: Vec<ToolKind> = Vec::new();
    push_when(&mut r, enabled, ToolType::Currency, ToolKind::Currency);
    if is_enabled(enabled, ToolType::Crypto) && crypto_available {
        r.push(ToolKind::Crypto);
    }
    if is_enabled(enabled, ToolType::Stock) && stock_available {
        r.push(ToolKind::Stock);
    }
    assert(r@ =~= financial_kinds(enabled@, crypto_available, stock_available));
    r
}

/// The social tools to register.
pub fn social_plan(enabled: &[ToolType]) -> (r: Vec<ToolKind>)
    ensures
        r@ == social_kinds(enabled@),
{
    let mut r: Vec<ToolKind> = Vec::new();
    push_when(&mut r, enabled, ToolType::BlueskyPost, ToolKind::BlueskyPost);
    push_when(&mut r, enabled, ToolType::FacebookPost, ToolKind::FacebookPost);
    push_when(&mut r, enabled, ToolType::FacebookPostsRead, ToolKind::FacebookReadPosts);
    push_when(&mut r, enabled, ToolType::FacebookCommentsRead, ToolKind::FacebookReadComments);
    push_when(&mut r, enabled, ToolType::FacebookMessagesRead, ToolKind::FacebookReadMessages);
    push_when(&mut r, enabled, ToolType::FacebookMessageSend, ToolKind::FacebookSendMessage);
    push_when(
        &mut r,
        enabled,
        ToolType::FacebookBusinessPagesRead,
        ToolKind::FacebookBusinessPages,
    );
    assert(r@ =~= social_kinds(enabled@));
    r
}

/// Every tool `register_all` registers: the database, development, financial
/// and utility tools, in that order.
pub fn register_all_plan(
    enabled: &[ToolType],
    context: &RegisterContext,
    crypto_available: bool,
    stock_available: bool,
    oauth_configured: bool,
    oauth_ready: bool,
) -> (r: Vec<ToolKind>)
    ensures
        r@ == database_kinds(enabled@, context.chroma_address is Some) + development_kinds(enabled@)
            + financial_kinds(enabled@, crypto_available, stock_available) + utility_kinds(
            enabled@,
            oauth_configured,
            oauth_ready,
        ),
{
    let mut r = database_plan(enabled, context);
    let mut d = development_plan(enabled);
    r.append(&mut d);
    let mut f = financial_plan(enabled, crypto_available, stock_available);
    r.append(&mut f);
    let mut u = utility_plan(enabled, oauth_configured, oauth_ready);
    r.append(&mut u);
    r
}

/// The tool type that enables a kind of tool.
pub open spec fn kind_type(k: ToolKind) -> ToolType {
    match k {
        ToolKind::ChromaDB => ToolType::ChromaDB,
        ToolKind::PageIndex => ToolType::PageIndex,
        ToolKind::GitHubPublic => ToolType::GitHubPublic,
        ToolKind::GitHubAuthenticated => ToolType::GitHubAuthenticated,
        ToolKind::Currency => ToolType::Currency,
        ToolKind::Crypto => ToolType::Crypto,
        ToolKind::Stock => ToolType::Stock,
        ToolKind::AskHuman => ToolType::AskHuman,
        ToolKind::Weather => ToolType::Weather,
        ToolKind::Forecast => ToolType::Weather,
        ToolKind::Email => ToolType::Email,
        ToolKind::GoogleGmail => ToolType::GoogleGmail,
        ToolKind::GoogleGmailRead => ToolType::GoogleGmailRead,
        ToolKind::GoogleCalendar => ToolType::GoogleCalendar,
        ToolKind::GoogleCalendarRead => ToolType::GoogleCalendarRead,
        ToolKind::GoogleDriveSearch => ToolType::GoogleDriveSearch,
        ToolKind::GoogleDriveRead => ToolType::GoogleDriveRead,
        ToolKind::GoogleDocsRead => ToolType::GoogleDocsRead,
        ToolKind::GoogleDocsWrite => ToolType::GoogleDocsWrite,
        ToolKind::GoogleSheetsRead => ToolType::GoogleSheetsRead,
        ToolKind::GoogleSheetsWrite => ToolType::GoogleSheetsWrite,
        ToolKind::GoogleTasksRead => ToolType::GoogleTasksRead,
        ToolKind::GoogleTasksWrite => ToolType::GoogleTasksWrite,
        ToolKind::GoogleContactsRead => ToolType::GoogleContactsRead,
        ToolKind::GoogleYouTubeRead => ToolType::GoogleYouTubeRead,
        ToolKind::GooglePlacesSearch => ToolType::GooglePlacesSearch,
        ToolKind::BlueskyPost => ToolType::BlueskyPost,
        ToolKind::FacebookPost => ToolType::FacebookPost,
        ToolKind::FacebookReadPosts => ToolType::FacebookPostsRead,
        ToolKind::FacebookReadComments => ToolType::FacebookCommentsRead,
        ToolKind::FacebookReadMessages => ToolType::FacebookMessagesRead,
        ToolKind::FacebookSendMessage => ToolType::FacebookMessageSend,
        ToolKind::FacebookBusinessPages => ToolType::FacebookBusinessPagesRead,
    }
}

/// Every kind in `ks` is enabled by a type that `e` holds.
pub open spec fn all_enabled(e: Seq<ToolType>, ks: Seq<ToolKind>) -> bool {
    forall|i: int| 0 <= i < ks.len() ==> enables(e, kind_type(#[trigger] ks[i]))
}

proof fn lemma_when_enabled(e: Seq<ToolType>, b: bool, t: ToolType, k: ToolKind)
    requires
        kind_type(k) == t,
        b ==> enables(e, t),
    ensures
        all_enabled(e, when(b, k)),
{
}

proof fn lemma_concat_enabled(e: Seq<ToolType>, a: Seq<ToolKind>, b: Seq<ToolKind>)
    requires
        all_enabled(e, a),
        all_enabled(e, b),
    ensures
        all_enabled(e, a + b),
{
    assert forall|i: int| 0 <= i < (a + b).len() implies enables(e, kind_type(#[trigger] (a + b)[i])) by {
        if i < a.len() {
            assert((a + b)[i] == a[i]);
        } else {
            assert((a + b)[i] == b[i - a.len()]);
        }
    }
}

proof fn lemma_table_enabled(e: Seq<ToolType>, table: Seq<(ToolType, ToolKind)>)
    requires
        forall|i: int| 0 <= i < table.len() ==> kind_type(#[trigger] table[i].1) == table[i].0,
    ensures
        all_enabled(e, kinds_from(e, table)),
    decreases table.len(),
{
    if table.len() > 0 {
        let rest = table.drop_last();
        assert forall|i: int| 0 <= i < rest.len() implies kind_type(#[trigger] rest[i].1) == rest[i].0 by {
            assert(rest[i] == table[i]);
        }
        lemma_table_enabled(e, rest);
        assert(kind_type(table[table.len() - 1].1) == table[table.len() - 1].0);
        lemma_when_enabled(e, enables(e, table.last().0), table.last().0, table.last().1);
        lemma_concat_enabled(e, kinds_from(e, rest), when(enables(e, table.last().0), table.last().1));
    }
}

proof fn lemma_database_enabled(e: Seq<ToolType>, has_address: bool)
    ensures
        all_enabled(e, database_kinds(e, has_address)),
{
    let a = when(enables(e, ToolType::ChromaDB) && has_address, ToolKind::ChromaDB);
    let b = when(enables(e, ToolType::PageIndex), ToolKind::PageIndex);
    lemma_when_enabled(e, enables(e, ToolType::ChromaDB) && has_address, ToolType::ChromaDB, ToolKind::ChromaDB);
    lemma_when_enabled(e, enables(e, ToolType::PageIndex), ToolType::PageIndex, ToolKind::PageIndex);
    lemma_concat_enabled(e, a, b);
}

proof fn lemma_development_enabled(e: Seq<ToolType>)
    ensures
        all_enabled(e, development_kinds(e)),
{
    let a = when(enables(e, ToolType::GitHubPublic), ToolKind::GitHubPublic);
    let b = when(enables(e, ToolType::GitHubAuthenticated), ToolKind::GitHubAuthenticated);
    lemma_when_enabled(e, enables(e, ToolType::GitHubPublic), ToolType::GitHubPublic, ToolKind::GitHubPublic);
    lemma_when_enabled(
        e,
        enables(e, ToolType::GitHubAuthenticated),
        ToolType::GitHubAuthenticated,
        ToolKind::GitHubAuthenticated,
    );
    lemma_concat_enabled(e, a, b);
}

proof fn lemma_financial_enabled(e: Seq<ToolType>, crypto_available: bool, stock_available: bool)
    ensures
        all_enabled(e, financial_kinds(e, crypto_available, stock_available)),
{
    let f1 = when(enables(e, ToolType::Currency), ToolKind::Currency);
    let f2 = when(enables(e, ToolType::Crypto) && crypto_available, ToolKind::Crypto);
    let f3 = when(enables(e, ToolType::Stock) && stock_available, ToolKind::Stock);
    lemma_when_enabled(e, enables(e, ToolType::Currency), ToolType::Currency, ToolKind::Currency);
    lemma_when_enabled(e, enables(e, ToolType::Crypto) && crypto_available, ToolType::Crypto, ToolKind::Crypto);
    lemma_when_enabled(e, enables(e, ToolType::Stock) && stock_available, ToolType::Stock, ToolKind::Stock);
    lemma_concat_enabled(e, f1, f2);
    lemma_concat_enabled(e, f1 + f2, f3);
}

proof fn lemma_google_enabled(e: Seq<ToolType>)
    ensures
        all_enabled(e, google_kinds(e)),
{
    assert forall|i: int| 0 <= i < google_table().len() implies kind_type(#[trigger] google_table()[i].1)
        == google_table()[i].0 by {
        assert(0 <= i < 14);
    }
    lemma_table_enabled(e, google_table());
}

proof fn lemma_utility_enabled(e: Seq<ToolType>, oauth_configured: bool, oauth_ready: bool)
    ensures
        all_enabled(e, utility_kinds(e, oauth_configured, oauth_ready)),
{
    let u1 = when(enables(e, ToolType::AskHuman), ToolKind::AskHuman);
    let u2 = if enables(e, ToolType::Weather) {
        seq![ToolKind::Weather, ToolKind::Forecast]
    } else {
        Seq::empty()
    };
    let u3 = when(enables(e, ToolType::Email), ToolKind::Email);
    let u4 = if wants_google(e) && oauth_configured && oauth_ready {
        google_kinds(e)
    } else {
        Seq::empty()
    };
    let u5 = when(enables(e, ToolType::GooglePlacesSearch), ToolKind::GooglePlacesSearch);
    lemma_when_enabled(e, enables(e, ToolType::AskHuman), ToolType::AskHuman, ToolKind::AskHuman);
    assert(all_enabled(e, u2));
    lemma_when_enabled(e, enables(e, ToolType::Email), ToolType::Email, ToolKind::Email);
    lemma_google_enabled(e);
    assert(all_enabled(e, u4));
    lemma_when_enabled(
        e,
        enables(e, ToolType::GooglePlacesSearch),
        ToolType::GooglePlacesSearch,
        ToolKind::GooglePlacesSearch,
    );
    lemma_concat_enabled(e, u1, u2);
    lemma_concat_enabled(e, u1 + u2, u3);
    lemma_concat_enabled(e, u1 + u2 + u3, u4);
    lemma_concat_enabled(e, u1 + u2 + u3 + u4, u5);
}

proof fn lemma_social_enabled(e: Seq<ToolType>)
    ensures
        all_enabled(e, social_kinds(e)),
{
    let s1 = when(enables(e, ToolType::BlueskyPost), ToolKind::BlueskyPost);
    let s2 = when(enables(e, ToolType::FacebookPost), ToolKind::FacebookPost);
    let s3 = when(enables(e, ToolType::FacebookPostsRead), ToolKind::FacebookReadPosts);
    let s4 = when(enables(e, ToolType::FacebookCommentsRead), ToolKind::FacebookReadComments);
    let s5 = when(enables(e, ToolType::FacebookMessagesRead), ToolKind::FacebookReadMessages);
    let s6 = when(enables(e, ToolType::FacebookMessageSend), ToolKind::FacebookSendMessage);
    let s7 = when(enables(e, ToolType::FacebookBusinessPagesRead), ToolKind::FacebookBusinessPages);
    lemma_when_enabled(e, enables(e, ToolType::BlueskyPost), ToolType::BlueskyPost, ToolKind::BlueskyPost);
    lemma_when_enabled(e, enables(e, ToolType::FacebookPost), ToolType::FacebookPost, ToolKind::FacebookPost);
    lemma_when_enabled(e, enables(e, ToolType::FacebookPostsRead), ToolType::FacebookPostsRead, ToolKind::FacebookReadPosts);
    lemma_when_enabled(
        e,
        enables(e, ToolType::FacebookCommentsRead),
        ToolType::FacebookCommentsRead,
        ToolKind::FacebookReadComments,
    );
    lemma_when_enabled(
        e,
        enables(e, ToolType::FacebookMessagesRead),
        ToolType::FacebookMessagesRead,
        ToolKind::FacebookReadMessages,
    );
    lemma_when_enabled(
        e,
        enables(e, ToolType::FacebookMessageSend),
        ToolType::FacebookMessageSend,
        ToolKind::FacebookSendMessage,
    );
    lemma_when_enabled(
        e,
        enables(e, ToolType::FacebookBusinessPagesRead),
        ToolType::FacebookBusinessPagesRead,
        ToolKind::FacebookBusinessPages,
    );
    lemma_concat_enabled(e, s1, s2);
    lemma_concat_enabled(e, s1 + s2, s3);
    lemma_concat_enabled(e, s1 + s2 + s3, s4);
    lemma_concat_enabled(e, s1 + s2 + s3 + s4, s5);
    lemma_concat_enabled(e, s1 + s2 + s3 + s4 + s5, s6);
    lemma_concat_enabled(e, s1 + s2 + s3 + s4 + s5 + s6, s7);
}

/// Registration builds only tools that the configuration enables: every
/// kind planned, by `register_all_plan` or by `social_plan`, is enabled by a
/// type the configuration holds.
pub proof fn law_only_enabled_tools_register(
    e: Seq<ToolType>,
    has_address: bool,
    crypto_available: bool,
    stock_available: bool,
    oauth_configured: bool,
    oauth_ready: bool,
)
    ensures
        all_enabled(
            e,
            database_kinds(e, has_address) + development_kinds(e) + financial_kinds(
                e,
                crypto_available,
                stock_available,
            ) + utility_kinds(e, oauth_configured, oauth_ready),
        ),
        all_enabled(e, social_kinds(e)),
{
    let d = database_kinds(e, has_address);
    let v = development_kinds(e);
    let f = financial_kinds(e, crypto_available, stock_available);
    let u = utility_kinds(e, oauth_configured, oauth_ready);
    lemma_database_enabled(e, has_address);
    lemma_development_enabled(e);
    lemma_financial_enabled(e, crypto_available, stock_available);
    lemma_utility_enabled(e, oauth_configured, oauth_ready);
    lemma_social_enabled(e);
    lemma_concat_enabled(e, d, v);
    lemma_concat_enabled(e, d + v, f);
    lemma_concat_enabled(e, d + v + f, u);
}

/// A configuration that enables nothing registers nothing, whatever else
/// holds.
pub proof fn law_nothing_enabled_nothing_registered(
    has_address: bool,
    crypto_available: bool,
    stock_available: bool,
    oauth_configured: bool,
    oauth_ready: bool,
)
    ensures
        database_kinds(Seq::empty(), has_address) + development_kinds(Seq::empty()) + financial_kinds(
            Seq::empty(),
            crypto_available,
            stock_available,
        ) + utility_kinds(Seq::empty(), oauth_configured, oauth_ready) == Seq::<ToolKind>::empty(),
        social_kinds(Seq::empty()) == Seq::<ToolKind>::empty(),
{
    let e = Seq::<ToolType>::empty();
    law_only_enabled_tools_register(e, has_address, crypto_available, stock_available, oauth_configured, oauth_ready);
    let all = database_kinds(e, has_address) + development_kinds(e) + financial_kinds(
        e,
        crypto_available,
        stock_available,
    ) + utility_kinds(e, oauth_configured, oauth_ready);
    if all.len() > 0 {
        assert(enables(e, kind_type(all[0])));
    }
    if social_kinds(e).len() > 0 {
        assert(enables(e, kind_type(social_kinds(e)[0])));
    }
    assert(all =~= Seq::<ToolKind>::empty());
    assert(social_kinds(e) =~= Seq::<ToolKind>::empty());
}

/// Registering the tools a configuration enables keeps every tool that was
/// registered before, and every tool it adds is of a kind the configuration
/// enables; a configuration that enables nothing leaves the registry as it
/// was.
pub proof fn law_registration_adds_only_enabled_tools(
    entries: Seq<RegisteredTool<ToolKind>>,
    offers: Seq<(RegisteredTool<ToolKind>, bool)>,
    e: Seq<ToolType>,
    id: Seq<char>,
)
    requires
        ids_distinct(entries),
        forall|j: int| 0 <= j < offers.len() ==> enables(e, kind_type(#[trigger] offers[j].0.tool)),
    ensures
        has_id(entries, id) ==> tool_with_id(after_offers(entries, offers), id) == tool_with_id(entries, id),
        forall|i: int|
            entries.len() <= i < after_offers(entries, offers).len() ==> enables(
                e,
                kind_type(#[trigger] after_offers(entries, offers)[i].tool),
            ),
        e.len() == 0 ==> after_offers(entries, offers) == entries,
{
    law_registering_keeps_registered_tools(entries, offers, id);
    let all = after_offers(entries, offers);
    assert forall|i: int| entries.len() <= i < all.len() implies enables(e, kind_type(#[trigger] all[i].tool)) by {
        let j = choose|j: int| 0 <= j < offers.len() && offers[j].1 && #[trigger] offers[j].0 == #[trigger] all[i];
        assert(enables(e, kind_type(offers[j].0.tool)));
    }
    if e.len() == 0 && offers.len() > 0 {
        assert(enables(e, kind_type(offers[0].0.tool)));
    }
}

} // verus!
