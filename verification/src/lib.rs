//! A typed control layer over the LXD command-line tool: containers and
//! snapshots as ownership-scoped values, every command invocation built and
//! checked against an explicit model of what was issued.

mod cmd;
pub mod commands;
mod container;
mod error;
pub mod image;
pub mod info;
pub mod json;
mod location;
mod snapshot;

pub use cmd::check_status;
pub use cmd::fetch_checked;
pub use cmd::fetch_result_matches;
pub use cmd::judged_fetch;
pub use cmd::judged_run;
pub use cmd::outcome_of;
pub use cmd::run_checked;
pub use cmd::run_result_matches;
pub use cmd::take_fetched;
pub use cmd::CmdOutcome;
pub use cmd::Executor;
pub use cmd::FetchOutcome;
pub use container::lemma_live_snapshots_block_stop;
pub use container::stop_permitted;
pub use container::Container;
pub use error::LxdError;
pub use image::Image;
pub use info::Info;
pub use json::Json;
pub use location::qualify_spec;
pub use location::Location;
pub use snapshot::Snapshot;
