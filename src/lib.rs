//! A chat bridge between a Slack workspace and a Keybase team.
//!
//! Inbound events of either platform are normalised, filtered and turned
//! into the post that goes out on the other platform. The network edges
//! (listening, looking up, posting) are left to the caller; this library
//! decides what is forwarded, and in which shape.

pub mod bridge_info;
pub mod keybase_profile;
pub mod keybase_side;
pub mod slack_side;
