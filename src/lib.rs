//! Decision logic for installing the CachyOS build of Proton: CPU level
//! detection, release asset selection, install directory layout and the
//! step function that sequences one install run.
mod arch;
mod error;
mod layout;
mod pipeline;
mod release;
mod text;

pub use arch::{detect_arch, MicroarchTag};
pub use error::InstallError;
pub use release::{asset_suffix_of, install_name_of, select_asset, Release, ReleaseAsset};
pub use text::{ends_with, starts_with};
pub use layout::{choose_install_root, find_payload, install_root_candidates, prune_targets, EntryInfo};
pub use pipeline::{join_path, lemma_ended_run_takes_no_event, Action, Event, Outcome, Run, Stage};
