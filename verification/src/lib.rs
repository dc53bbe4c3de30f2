//! Client-side helpers for a search server: a task model, request builders,
//! and a bounded, concurrency-safe registry that lets callers wait for the
//! completion of asynchronous server-side tasks.

use vstd::prelude::*;

mod channel;
mod client;
mod has_index;
mod index;
mod promise;
mod search;
mod task;
mod task_manager;

pub use client::bearer_header;
pub use client::decode_result;
pub use client::delete_batch_path;
pub use client::document_path;
pub use client::documents_path;
pub use client::ensure_index_step;
pub use client::index_path;
pub use client::is_success_code;
pub use client::join_url;
pub use client::nok_error;
pub use client::search_path;
pub use client::settings_path;
pub use client::tasks_path;
pub use client::u64_to_dec;
pub use client::Error;
pub use client::IndexPlan;
pub use has_index::attrs_differ;
pub use has_index::lex_le;
pub use has_index::plan_settings_update;
pub use has_index::same_but_declared_attrs;
pub use has_index::settings_update_needed;
pub use has_index::sort_attrs;
pub use has_index::views_of;
pub use search::Search;
pub use task_manager::entries_map;
pub use task_manager::evict_for;
pub use task_manager::is_min_uid;
pub use task_manager::law_capacity_preserved;
pub use task_manager::law_completed_is_stable;
pub use task_manager::law_duplicate_report_ignored;
pub use task_manager::law_eviction_drops_smallest;
pub use task_manager::law_report_resolves_pending;
pub use task_manager::report_notifies;
pub use task_manager::report_transition;
pub use task_manager::spec_min_uid;
pub use task_manager::Registry;
pub use task_manager::RegistryInv;
pub use task_manager::TaskManager;
pub use task_manager::TaskTicket;
pub use task_manager::TicketEntry;
pub use task_manager::MAX_TICKETS;
pub use promise::Promise;
pub use promise::WaitError;
pub use index::Faceting;
pub use index::Index;
pub use index::IndexSettings;
pub use index::MinWordSizeForTypos;
pub use index::Pagination;
pub use index::TypoTolerance;
pub use task::AsTaskUid;
pub use task::Task;
pub use task::TaskError;
pub use task::TaskKind;
pub use task::TaskKindRef;
pub use task::TaskRef;
pub use task::TaskStatus;

verus! {

/// Timestamps are carried verbatim as the server sent them.
pub type DateTime = String;

} // verus!
