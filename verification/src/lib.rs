//! Build and version metadata: a semantic version with the release channel
//! and, where source control has them, the description and the date of the
//! commit, rendered for display in a version string.
//!
//! The library reads and writes no environment and starts no process. Its
//! callers hand it what they found there: the build's version constants, the
//! value of the channel variable, and how the source-control program ended
//! and what it printed.

pub mod channel;
pub mod commit;
pub mod decimal;
pub mod version;
pub mod whitespace;

pub use channel::{get_channel, CHANNEL_VARIABLE};
pub use commit::{
    commit_date_arguments, describe_arguments, get_commit_date, get_commit_describe,
    SOURCE_CONTROL,
};
pub use version::{get_version, Version, VersionView};
