use vstd::prelude::*;

verus! {

/// The bridge's configuration: two Slack tokens and the Keybase side.
pub struct BridgeInfo {
    pub slack: OAuth,
    pub slackbot: OAuth,
    pub keybase: KeybaseInfo,
}

/// One Slack access token.
pub struct OAuth {
    pub oauth_access_token: String,
}

/// The Keybase side of the bridge: the bot's key, the one team that is
/// bridged, and the name the bot posts under.
pub struct KeybaseInfo {
    pub paper_key: String,
    pub team: String,
    pub bot_name: String,
}

} // verus!
