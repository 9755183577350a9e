//! Verified core of an agent tool-box: tool metadata, the tool registry and the
//! system prompt built from it, and the argument checking, request planning and
//! response rendering of each tool. Network, process and file-system work is
//! left to the caller, which hands plain values in and gets plain values back.
pub mod text;
pub mod framework;
pub mod json;
pub mod facebook;
pub mod pageindex;
pub mod system;
pub mod bluesky;
pub mod registry;
pub mod selector;
pub mod chromadb;
pub mod plan;
pub mod legacy;
pub mod facebook_tools;
pub mod ask_human;
pub mod github_format;
pub mod github;
pub mod alpha;
pub mod read_document;
pub mod mock;
pub mod google;
pub mod workspace;
pub mod calendar;
pub mod mail;
pub mod render;
pub mod currency;
pub mod weather;
