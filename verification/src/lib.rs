//! Crawl orchestration for documentation sites.
//!
//! A crawl starts from a seed page, follows the links that its filters
//! let pass, and keeps for every page a record whose status moves through
//! a fixed machine. The engine decides and records; whoever runs it does
//! the fetching and the refining, and hands the outcomes back.
//!
//! - [`filter`] decides whether a URL is in scope of a crawl.
//! - [`status`] is the status machine of a page, [`store`] the pages.
//! - [`pool`] is the task scheduler, [`retry`] the retry policy.
//! - [`crawler`] is the engine: submission, the steps of a crawl task, the
//!   expansion of links, and stopping. [`worker`] dispatches tasks by kind
//!   and holds the steps of the tasks that refine a text and make
//!   snippets; [`commands`] holds what the user-facing commands decide.
//!   [`frontier`] states what holds of the links of a page, of failures
//!   and of retries.
//! - [`urls`], [`content`], [`text`] and [`ids`] stand between the engine
//!   and the crates that parse URLs, match patterns and make identifiers.

pub mod browser;
pub mod cache;
pub mod catalog;
pub mod commands;
pub mod content;
pub mod crawler;
pub mod events;
pub mod filter;
pub mod frontier;
pub mod ids;
pub mod intelligence;
pub mod mcp;
pub mod models;
pub mod pool;
pub mod proxies;
pub mod registry;
pub mod retry;
pub mod search;
pub mod snippets;
pub mod status;
pub mod store;
pub mod task;
pub mod text;
pub mod urls;
pub mod version_order;
pub mod versions;
pub mod worker;
