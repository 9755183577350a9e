//! What every tool declares about itself: its category, its kind and its
//! metadata.
use vstd::prelude::*;

verus! {

/// Tool category with an associated Material Icon name.
#[derive(Debug, Clone, Copy, PartialEq, Eq, Structural)]
pub enum ToolCategory {
    /// Web/Internet related tools (web icon)
    Web,
    /// Financial/Money related tools (currency-usd icon)
    Financial,
    /// Database/Storage related tools (database icon)
    Database,
    /// Search/Query related tools (magnify icon)
    Search,
    /// File operations (file-document icon)
    File,
    /// Google Workspace tools (google icon)
    Google,
    /// Social media tools (share-variant icon)
    Social,
    /// Development/Code tools (code-tags icon)
    Development,
    /// General/Utility tools (wrench icon)
    Utility,
}

/// The Material Icon name the front end renders for a category.
pub open spec fn icon_of(c: ToolCategory) -> Seq<char> {
    match c {
        ToolCategory::Web => "web"@,
        ToolCategory::Financial => "currency-usd"@,
        ToolCategory::Database => "database"@,
        ToolCategory::Search => "magnify"@,
        ToolCategory::File => "file-document"@,
        ToolCategory::Google => "google"@,
        ToolCategory::Social => "share-variant"@,
        ToolCategory::Development => "code-tags"@,
        ToolCategory::Utility => "wrench"@,
    }
}

impl ToolCategory {
    /// The Material Icon name for this category.
    pub fn icon_name(&self) -> (r: &'static str)
        ensures
            r@ == icon_of(*self),
    {
        match self {
            ToolCategory::Web => "web",
            ToolCategory::Financial => "currency-usd",
            ToolCategory::Database => "database",
            ToolCategory::Search => "magnify",
            ToolCategory::File => "file-document",
            ToolCategory::Google => "google",
            ToolCategory::Social => "share-variant",
            ToolCategory::Development => "code-tags",
            ToolCategory::Utility => "wrench",
        }
    }
}

/// The kind of a tool, as the agent configuration enables it.
#[derive(Debug, Clone, Copy, PartialEq, Eq, Structural)]
pub enum ToolType {
    ChromaDB,
    PageIndex,
    ReadDocument,
    GitHubPublic,
    GitHubAuthenticated,
    Crypto,
    Currency,
    Stock,
    Weather,
    Email,
    AskHuman,
    SystemCommand,
    BlueskyPost,
    FacebookPost,
    FacebookPostsRead,
    FacebookCommentsRead,
    FacebookMessagesRead,
    FacebookMessageSend,
    FacebookBusinessPagesRead,
    GoogleGmail,
    GoogleGmailRead,
    GoogleCalendar,
    GoogleCalendarRead,
    GoogleDriveSearch,
    GoogleDriveRead,
    GoogleDocsRead,
    GoogleDocsWrite,
    GoogleSheetsRead,
    GoogleSheetsWrite,
    GoogleTasksRead,
    GoogleTasksWrite,
    GoogleContactsRead,
    GoogleYouTubeRead,
    GooglePlacesSearch,
}

/// Tool metadata for registration and selection.
#[derive(Debug)]
pub struct ToolMetadata {
    pub id: String,
    pub name: String,
    pub tool_type: ToolType,
    pub description: String,
    pub category: ToolCategory,
}

/// The metadata's fields, as plain values.
pub open spec fn metadata_is(
    m: ToolMetadata,
    id: Seq<char>,
    name: Seq<char>,
    tool_type: ToolType,
    description: Seq<char>,
    category: ToolCategory,
) -> bool {
    &&& m.id@ == id
    &&& m.name@ == name
    &&& m.tool_type == tool_type
    &&& m.description@ == description
    &&& m.category == category
}

impl ToolMetadata {
    /// Metadata built from string slices.
    pub fn from_parts(
        id: &str,
        name: &str,
        tool_type: ToolType,
        description: &str,
        category: ToolCategory,
    ) -> (m: ToolMetadata)
        ensures
            metadata_is(m, id@, name@, tool_type, description@, category),
    {
        ToolMetadata {
            id: crate::text::copy_str(id),
            name: crate::text::copy_str(name),
            tool_type,
            description: crate::text::copy_str(description),
            category,
        }
    }
}

impl ToolMetadata {
    /// A copy of the metadata.
    pub fn duplicate(&self) -> (m: ToolMetadata)
        ensures
            metadata_is(m, self.id@, self.name@, self.tool_type, self.description@, self.category),
    {
        ToolMetadata::from_parts(
            self.id.as_str(),
            self.name.as_str(),
            self.tool_type,
            self.description.as_str(),
            self.category,
        )
    }
}

/// The error a tool reports: a message meant for the model and the user.
#[derive(Debug)]
pub struct ToolError {
    pub message: String,
}

impl ToolError {
    /// An error carrying `message`.
    pub fn new(message: String) -> (e: ToolError)
        ensures
            e.message@ == message@,
    {
        ToolError { message }
    }

    /// An error carrying a copy of `message`.
    pub fn msg(message: &str) -> (e: ToolError)
        ensures
            e.message@ == message@,
    {
        ToolError { message: crate::text::copy_str(message) }
    }

    /// The error's message.
    pub fn to_string(&self) -> (s: String)
        ensures
            s@ == self.message@,
    {
        self.message.clone()
    }
}

/// What a tool hands back to the model.
pub struct ToolCallResult {
    pub tool_call_id: Option<String>,
    pub tool_name: String,
    pub result: String,
}

impl ToolCallResult {
    /// A result without a call id.
    pub fn named(tool_name: &str, result: String) -> (r: ToolCallResult)
        ensures
            r.tool_call_id is None,
            r.tool_name@ == tool_name@,
            r.result@ == result@,
    {
        ToolCallResult { tool_call_id: None, tool_name: crate::text::copy_str(tool_name), result }
    }
}

} // verus!
