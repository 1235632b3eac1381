//! Finds repositories that depend on a single contributor ("bus factor 1").
//!
//! The library holds the pipeline's decisions: it reduces each repository's
//! contributor list to its lead contributor's share, composes the
//! per-repository outcomes fail-fast, keeps the summaries at or above the
//! threshold and renders them as a text table. It also builds the search
//! parameters and addresses of the two API endpoints and chooses the API key.
//! Fetching over the network is left to the caller, who hands the responses
//! in as plain values.

mod args;
mod calculate;
mod client;
mod environment;
mod errors;
mod model;
mod text;

pub use args::Args;
pub use calculate::{
    execute_query, format_results, is_bus_factor_1, lemma_lead_is_unique,
    lemma_run_is_deterministic, lemma_unique_maximum_leads, process_repo, summarize,
};
pub use client::DefaultClient;
pub use environment::get_api_key;
pub use errors::{Error, ErrorView};
pub use model::{
    ApiKey, Contributor, ContributorView, Owner, Query, Repository, RepositorySummary, RepositoryView,
    SummaryView,
};
