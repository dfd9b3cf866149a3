//! Supervision and update-synchronization core for a single managed
//! game-server process.
//!
//! The crate models the lifecycle of the supervised process as a state
//! machine (`server`), the persisted record of installed software
//! (`config`, `mods`), and the multi-step update pipeline that reconciles
//! that record against remote metadata (`update`).  All decisions are made
//! here under verified contracts; the surrounding binary performs the
//! actual process, file and network side effects and reports their
//! outcomes back as plain values.

mod config;
mod errors;
mod laws;
mod mods;
mod server;
mod update;

pub use config::Config;
pub use config::ConfigModel;
pub use config::Platform;
pub use config::create_new_config;
pub use config::initial_config;
pub use errors::FileKind;
pub use errors::IoChannel;
pub use errors::ServerErrors;
pub use laws::count_mod_downloads;
pub use laws::env_game_version;
pub use laws::env_reaches_mods;
pub use laws::has_no_downloads;
pub use laws::lemma_new_mod_recorded;
pub use laws::lemma_partial_failure_isolated;
pub use laws::lemma_reconcile_from_pointwise;
pub use laws::lemma_reconcile_idempotent;
pub use laws::lemma_start_twice;
pub use laws::lemma_stop_after_ready;
pub use laws::lemma_stop_before_start;
pub use laws::lemma_stop_while_starting;
pub use laws::lemma_update_idempotent;
pub use laws::lemma_update_resumes;
pub use laws::listed_files;
pub use laws::meta_version;
pub use laws::run_line;
pub use mods::LatestFile;
pub use mods::LatestFileModel;
pub use mods::MCMod;
pub use mods::ModModel;
pub use server::GAME_PORT;
pub use server::Instance;
pub use server::Manager;
pub use server::SendOutcome;
pub use server::SpawnOutcome;
pub use server::StopOutcome;
pub use server::de_op_command;
pub use server::encode_command;
pub use server::is_ready_marker;
pub use server::jar_name;
pub use server::op_command;
pub use server::spec_check_start;
pub use server::spec_check_stop;
pub use server::spec_delete;
pub use server::spec_mark_ready;
pub use server::spec_new;
pub use server::spec_online;
pub use server::spec_ready_marker;
pub use server::spec_send;
pub use server::spec_start;
pub use server::spec_stop;
pub use server::stop_command;
pub use update::Action;
pub use update::ActionModel;
pub use update::InstallerDownload;
pub use update::InstallerRun;
pub use update::InstallerRunModel;
pub use update::ListingFetch;
pub use update::ListingFetchModel;
pub use update::MetaFetch;
pub use update::MetaFetchModel;
pub use update::UpdateEnv;
pub use update::UpdateEnvModel;
pub use update::UpdateReport;
pub use update::UpdateReportModel;
pub use update::acts_view;
pub use update::find_char;
pub use update::first_match;
pub use update::lemma_find_is_first;
pub use update::listings_view;
pub use update::opt_act;
pub use update::parse_install_line;
pub use update::spec_create;
pub use update::spec_find;
pub use update::spec_first_match;
pub use update::spec_parse_install_line;
pub use update::spec_reconcile_from;
pub use update::spec_reconcile_one;
pub use update::spec_update;
