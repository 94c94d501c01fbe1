//! Core of a repository-history viewer: builds a render-ready commit graph
//! (lanes, colors, per-commit diff statistics, ref labels) together with
//! branch divergence and working-tree status summaries, for a single open
//! repository session.

mod color;
mod numtext;
mod timefmt;
mod records;
mod lanes;
mod labels;
mod refindex;
mod status;
mod errors;
mod history;
mod ingest;
mod gitio;
mod session;

pub use color::PALETTE_LEN;
pub use color::color_spec;
pub use color::get_commit_color;
pub use color::lemma_color_period;
pub use errors::GitError;
pub use errors::error_text_spec;
pub use history::HISTORY_WINDOW;
pub use history::branch_labels;
pub use history::build_history;
pub use history::history_node_ok;
pub use history::kind_spec;
pub use history::labels_of;
pub use history::lane_of;
pub use history::lanes_law;
pub use history::lemma_lanes_deterministic;
pub use history::node_self_consistent;
pub use history::stats_spec;
pub use ingest::collect_branch_raws;
pub use ingest::collect_ref_items;
pub use ingest::make_branch_info;
pub use ingest::normalize_commit;
pub use ingest::opt_or_empty;
pub use labels::get_branch_for_commit;
pub use labels::label_spec;
pub use lanes::BranchLaneAssigner;
pub use lanes::first_index_of;
pub use lanes::first_lanes;
pub use lanes::lemma_first_index_push_new;
pub use lanes::lemma_first_index_unique;
pub use lanes::lemma_first_lanes_distinct;
pub use lanes::lemma_first_lanes_len;
pub use lanes::lemma_first_lanes_prefix;
pub use lanes::lemma_first_lanes_push;
pub use numtext::dec_seq;
pub use numtext::u64_to_string;
pub use records::BranchInfo;
pub use records::BranchRaw;
pub use records::CommitDetail;
pub use records::CommitRaw;
pub use records::CommitStats;
pub use records::ExtendedCommitInfo;
pub use records::FileStatus;
pub use records::RefItem;
pub use records::RepoStatus;
pub use records::StatusFlags;
pub use records::StatusItem;
pub use refindex::refs_for_commit;
pub use refindex::refs_of;
pub use session::RepositorySession;
pub use session::get_repo_status;
pub use status::branch_display_spec;
pub use status::build_repo_status;
pub use status::classify_status;
pub use status::status_label_spec;
pub use status::status_path_spec;
pub use timefmt::format_timestamp;
pub use timefmt::rel_time_spec;
