//! The release channel of a build.

use vstd::prelude::*;

verus! {

/// The environment variable that configures the channel.
pub const CHANNEL_VARIABLE: &'static str = "CFG_RELEASE_CHANNEL";

/// The channel of a build whose configuration names none.
pub open spec fn default_channel() -> Seq<char> {
    "nightly"@
}

/// The channel that a build reports: the configured one, or else the
/// default.
pub open spec fn channel_name(configured: Option<Seq<char>>) -> Seq<char> {
    match configured {
        Some(name) => name,
        None => default_channel(),
    }
}

/// The release channel, given the value of the variable that configures it
/// (`None` where the variable is not set or holds no text). The result is
/// always present: without a value it is `"nightly"`, and with one it is the
/// value as it is, the empty string included.
pub fn get_channel(configured: Option<String>) -> (channel: Option<String>)
    ensures
        channel.deep_view() == Some(channel_name(configured.deep_view())),
{
    match configured {
        Some(name) => Some(name),
        None => Some("nightly".to_owned()),
    }
}

} // verus!
