use agent_tools::alpha::{CryptoTool, StockTool};
use agent_tools::ask_human::AskHumanTool;
use agent_tools::bluesky::BlueskyPostTool;
use agent_tools::chromadb::ChromaDBTool;
use agent_tools::currency::CurrencyTool;
use agent_tools::facebook::FacebookCredentials;
use agent_tools::facebook_tools::{
    FacebookBusinessPagesTool, FacebookPostTool, FacebookReadCommentsTool, FacebookReadMessagesTool,
    FacebookReadPostsTool, FacebookSendMessageTool,
};
use agent_tools::framework::{ToolMetadata, ToolType};
use agent_tools::github::{GitHubAuthenticatedTool, GitHubPublicTool};
use agent_tools::mail::EmailTool;
use agent_tools::pageindex::PageIndexTool;
use agent_tools::plan::{
    database_plan, development_plan, financial_plan, register_all_plan, social_plan, RegisterContext, ToolKind,
};
use agent_tools::registry::{RegisteredTool, ToolRegistry};
use agent_tools::weather::{ForecastTool, WeatherTool};

fn no_facebook() -> FacebookCredentials {
    FacebookCredentials::from_env_values(None, None, None, None)
}

/// The metadata, function name and availability a planned tool registers
/// with, the tool built as a process without credentials builds it.
fn entry(kind: ToolKind) -> Option<(ToolMetadata, &'static str, bool)> {
    Some(match kind {
        ToolKind::ChromaDB => {
            (ChromaDBTool::new("http://127.0.0.1:1", Vec::new()).metadata, "chromadb_tool", true)
        },
        ToolKind::PageIndex => (PageIndexTool::new(Vec::new()).metadata, "pageindex_tool", true),
        ToolKind::GitHubPublic => {
            let t = GitHubPublicTool::new("");
            let available = t.is_available();
            (t.metadata, "github_public", available)
        },
        ToolKind::GitHubAuthenticated => {
            let t = GitHubAuthenticatedTool::new("", "", "");
            let available = t.is_available();
            (t.metadata, "github_authenticated", available)
        },
        ToolKind::Currency => (CurrencyTool::new().metadata, "currency_check", true),
        ToolKind::Crypto => {
            let t = CryptoTool::new(None);
            let available = t.is_available();
            (t.metadata, "crypto_data", available)
        },
        ToolKind::Stock => {
            let t = StockTool::new(None);
            let available = t.is_available();
            (t.metadata, "stock_data", available)
        },
        ToolKind::AskHuman => (AskHumanTool::new().metadata, "ask_human", true),
        ToolKind::Weather => {
            let t = WeatherTool::new(String::new());
            let available = t.is_available();
            (t.metadata, "weather_current", available)
        },
        ToolKind::Forecast => {
            let t = ForecastTool::new(String::new());
            let available = t.is_available();
            (t.metadata, "weather_forecast", available)
        },
        ToolKind::Email => {
            let t = EmailTool::new(None, false);
            let available = t.is_available();
            (t.metadata, "send_email", available)
        },
        ToolKind::BlueskyPost => (BlueskyPostTool::new(None, None).metadata, "bluesky_post", true),
        ToolKind::FacebookPost => (FacebookPostTool::new(no_facebook()).metadata, "facebook_post", true),
        ToolKind::FacebookReadPosts => {
            (FacebookReadPostsTool::new(no_facebook()).metadata, "facebook_read_posts", true)
        },
        ToolKind::FacebookReadComments => {
            (FacebookReadCommentsTool::new(no_facebook()).metadata, "facebook_read_comments", true)
        },
        ToolKind::FacebookReadMessages => {
            (FacebookReadMessagesTool::new(no_facebook()).metadata, "facebook_read_messages", true)
        },
        ToolKind::FacebookSendMessage => {
            (FacebookSendMessageTool::new(no_facebook()).metadata, "facebook_send_message", true)
        },
        ToolKind::FacebookBusinessPages => {
            (FacebookBusinessPagesTool::new(no_facebook()).metadata, "facebook_list_business_pages", true)
        },
        _ => return None,
    })
}

/// Registers each planned tool; a refused registration is only reported.
fn register_kinds(registry: &mut ToolRegistry<ToolKind>, kinds: Vec<ToolKind>) {
    let offers = kinds
        .into_iter()
        .filter_map(|kind| {
            entry(kind).map(|(metadata, name, available)| {
                (RegisteredTool { metadata, function_name: name.to_string(), tool: kind }, available)
            })
        })
        .collect();
    for e in registry.register_all(offers) {
        println!("Failed to register tool: {}", e.to_string());
    }
}

fn register_database(registry: &mut ToolRegistry<ToolKind>, enabled: &[ToolType], address: Option<&str>) {
    let context = RegisterContext { chroma_address: address.map(|a| a.to_string()) };
    register_kinds(registry, database_plan(enabled, &context));
}

fn register_development(registry: &mut ToolRegistry<ToolKind>, enabled: &[ToolType]) {
    register_kinds(registry, development_plan(enabled));
}

fn register_financial(registry: &mut ToolRegistry<ToolKind>, enabled: &[ToolType]) {
    let crypto = CryptoTool::new(None).is_available();
    let stock = StockTool::new(None).is_available();
    register_kinds(registry, financial_plan(enabled, crypto, stock));
}

fn register_social(registry: &mut ToolRegistry<ToolKind>, enabled: &[ToolType]) {
    register_kinds(registry, social_plan(enabled));
}

#[test]
fn test_chromadb_tool_is_registered_when_enabled_and_addressed() {
    let mut registry = ToolRegistry::new();
    register_database(&mut registry, &[ToolType::ChromaDB], Some("http://127.0.0.1:1"));
    assert!(registry.get_tool_by_name("chromadb_tool").is_some());
    assert!(registry.get_tool_by_name("pageindex_tool").is_none());
}

#[test]
fn test_chromadb_tool_is_skipped_when_no_address_is_configured() {
    let mut registry = ToolRegistry::new();
    register_database(&mut registry, &[ToolType::ChromaDB], None);
    assert!(registry.get_all_tool_ids().is_empty());
}

#[test]
fn test_chromadb_tool_is_skipped_when_not_enabled() {
    let mut registry = ToolRegistry::new();
    register_database(&mut registry, &[ToolType::PageIndex], Some("http://127.0.0.1:1"));
    assert!(registry.get_tool_by_name("chromadb_tool").is_none());
    assert!(registry.get_tool_by_name("pageindex_tool").is_some());
}

#[test]
fn test_both_database_tools_can_be_registered_together() {
    let mut registry = ToolRegistry::new();
    register_database(&mut registry, &[ToolType::ChromaDB, ToolType::PageIndex], Some("http://127.0.0.1:1"));
    assert_eq!(registry.get_all_tool_ids().len(), 2);
    assert!(registry.get_tool_by_name("chromadb_tool").is_some());
    assert!(registry.get_tool_by_name("pageindex_tool").is_some());
}

#[test]
fn test_registering_the_same_tools_twice_is_survivable() {
    let mut registry = ToolRegistry::new();
    let enabled = [ToolType::ChromaDB, ToolType::PageIndex];
    register_database(&mut registry, &enabled, Some("http://127.0.0.1:1"));
    register_database(&mut registry, &enabled, Some("http://127.0.0.1:1"));
    assert_eq!(registry.get_all_tool_ids().len(), 2);
}

#[test]
fn test_no_database_tools_are_registered_when_none_are_enabled() {
    let mut registry = ToolRegistry::new();
    register_database(&mut registry, &[], Some("http://127.0.0.1:1"));
    assert!(registry.get_all_tool_ids().is_empty());
}

#[test]
fn mod_nothing_is_registered_for_an_empty_configuration() {
    let mut registry = ToolRegistry::new();
    register_development(&mut registry, &[]);
    assert_eq!(registry.count(), 0);

    let mut registry = ToolRegistry::new();
    register_financial(&mut registry, &[]);
    assert_eq!(registry.count(), 0);

    let mut registry = ToolRegistry::new();
    register_social(&mut registry, &[]);
    assert_eq!(registry.count(), 0);
}

#[test]
fn mod_each_enabled_tool_is_registered_when_it_reports_itself_available() {
    let mut registry = ToolRegistry::new();
    let enabled = [ToolType::GitHubPublic, ToolType::GitHubAuthenticated];
    register_development(&mut registry, &enabled);
    assert!(registry.is_registered("github_public"));
    assert_eq!(registry.is_registered("github_authenticated"), GitHubAuthenticatedTool::new("", "", "").is_available());
    let before = registry.count();
    register_development(&mut registry, &enabled);
    assert_eq!(registry.count(), before);

    let mut registry = ToolRegistry::new();
    register_financial(&mut registry, &[ToolType::Currency, ToolType::Crypto, ToolType::Stock]);
    assert!(registry.is_registered("5"), "Currency should be registered");
    assert_eq!(registry.is_registered("7"), CryptoTool::new(None).is_available());
    assert_eq!(registry.is_registered("6"), StockTool::new(None).is_available());
}

#[test]
fn registering_twice_reports_the_duplicate_without_panicking() {
    let mut registry = ToolRegistry::new();
    register_financial(&mut registry, &[ToolType::Currency]);
    register_financial(&mut registry, &[ToolType::Currency]);
    assert_eq!(registry.count(), 1);
    assert!(registry.is_registered("5"));
}

#[test]
fn test_register_all() {
    let mut registry = ToolRegistry::new();
    let enabled = [ToolType::GitHubPublic, ToolType::Weather];
    let context = RegisterContext { chroma_address: None };
    let crypto = CryptoTool::new(None).is_available();
    let stock = StockTool::new(None).is_available();
    register_kinds(&mut registry, register_all_plan(&enabled, &context, crypto, stock, false, false));
    assert!(registry.get_tool("github_public").is_some(), "GitHubPublic failed to register");
}

fn all_social_tools() -> Vec<(ToolType, &'static str)> {
    vec![
        (ToolType::BlueskyPost, "bluesky_post"),
        (ToolType::FacebookPost, "facebook_post"),
        (ToolType::FacebookPostsRead, "facebook_read_posts"),
        (ToolType::FacebookCommentsRead, "facebook_read_comments"),
        (ToolType::FacebookMessagesRead, "facebook_read_messages"),
        (ToolType::FacebookMessageSend, "facebook_send_message"),
        (ToolType::FacebookBusinessPagesRead, "facebook_list_business_pages"),
    ]
}

#[test]
fn every_social_tool_registers_under_its_own_id() {
    let mut registry = ToolRegistry::new();
    let enabled: Vec<ToolType> = all_social_tools().into_iter().map(|(t, _)| t).collect();
    register_social(&mut registry, &enabled);
    for (_, id) in all_social_tools() {
        assert!(registry.is_registered(id), "{} should be registered", id);
    }
    assert_eq!(registry.count(), all_social_tools().len());
    register_social(&mut registry, &enabled);
    assert_eq!(registry.count(), all_social_tools().len());
}

#[test]
fn enabling_one_tool_registers_only_that_tool() {
    let mut registry = ToolRegistry::new();
    register_social(&mut registry, &[ToolType::FacebookPost]);
    assert_eq!(registry.get_all_tool_ids(), vec!["facebook_post"]);
}

#[test]
fn test_weather_metadata() {
    let tool = WeatherTool::new(String::new());
    assert_eq!(tool.metadata.id, "weather_current");
    assert_eq!(tool.metadata.category, agent_tools::framework::ToolCategory::Utility);
    assert_eq!(tool.metadata.tool_type, ToolType::Weather);
}

#[test]
fn test_forecast_metadata() {
    let tool = ForecastTool::new(String::new());
    assert_eq!(tool.metadata.id, "weather_forecast");
    assert_eq!(tool.metadata.category, agent_tools::framework::ToolCategory::Utility);
    assert_eq!(tool.metadata.tool_type, ToolType::Weather);
}

#[test]
fn unavailable_tools_of_a_full_plan_are_left_out() {
    let mut registry = ToolRegistry::new();
    let enabled = [ToolType::Weather, ToolType::Email, ToolType::AskHuman, ToolType::Crypto];
    let context = RegisterContext { chroma_address: None };
    register_kinds(&mut registry, register_all_plan(&enabled, &context, false, false, false, false));
    assert_eq!(registry.get_all_tool_ids(), vec!["ask_human"]);
}

#[test]
fn forecast_target_dates_resolve_relative_words() {
    assert_eq!(agent_tools::weather::resolve_target_date("Tomorrow", "2024-05-01", "2024-05-02"), "2024-05-02");
    assert_eq!(agent_tools::weather::resolve_target_date("today please", "2024-05-01", "2024-05-02"), "2024-05-01");
    assert_eq!(agent_tools::weather::resolve_target_date("2024-06-10", "2024-05-01", "2024-05-02"), "2024-06-10");
    assert_eq!(ForecastTool::target_date(None), None);
    assert_eq!(ForecastTool::target_date(Some("2024-06-10")), Some("2024-06-10".to_string()));

    // "tomorrow" is the day after today's date in UTC; accept either side of
    // a midnight rollover mid-test.
    let before = chrono::Utc::now();
    let tomorrow = ForecastTool::target_date(Some("tomorrow")).unwrap();
    let today = ForecastTool::target_date(Some("Today")).unwrap();
    let after = chrono::Utc::now();
    let day = chrono::Duration::days(1);
    let fmt = |t: chrono::DateTime<chrono::Utc>| t.format("%Y-%m-%d").to_string();
    assert!([fmt(before + day), fmt(after + day)].contains(&tomorrow), "{}", tomorrow);
    assert!([fmt(before), fmt(after)].contains(&today), "{}", today);
}

#[test]
fn offering_the_same_tools_twice_refuses_each_the_second_time() {
    let offers = || {
        vec![
            (RegisteredTool { metadata: ForecastTool::new(String::new()).metadata, function_name: "f".to_string(), tool: 1u8 }, true),
            (RegisteredTool { metadata: EmailTool::new(None, false).metadata, function_name: "e".to_string(), tool: 2u8 }, false),
        ]
    };
    let mut registry: ToolRegistry<u8> = ToolRegistry::new();
    assert!(registry.register_all(offers()).is_empty());
    let ids = registry.get_all_tool_ids();
    assert_eq!(ids.len(), 1);
    let errors = registry.register_all(offers());
    assert_eq!(errors.len(), 1);
    assert_eq!(errors[0].to_string(), format!("Tool with ID '{}' already registered", ids[0]));
    assert_eq!(registry.get_all_tool_ids(), ids);
    assert_eq!(registry.get_tool(&ids[0]), Some(&1u8));
}
