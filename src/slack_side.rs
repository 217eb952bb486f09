//! The Slack side: from a Slack message event to the normalised message
//! that is handed on towards Keybase.
use vstd::prelude::*;
use vstd::string::*;

verus! {

/// What `htmlescape::decode_html` makes of a text: the decoded text, or
/// nothing where the text holds an entity that cannot be decoded.
pub uninterp spec fn html_decoded(s: Seq<char>) -> Option<Seq<char>>;

/// Relies on `htmlescape::decode_html`, which decodes the HTML character
/// entities of a text and fails on a malformed or unknown one.
#[verifier::external_body]
fn decode_entities(s: &str) -> (r: Option<String>)
    ensures
        r matches Some(d) ==> html_decoded(s@) == Some(d@),
        r is None ==> html_decoded(s@) is None,
{
    htmlescape::decode_html(s).ok()
}

/// The view of an optional string.
pub open spec fn opt_view(o: Option<String>) -> Option<Seq<char>> {
    match o {
        Some(s) => Some(s@),
        None => None,
    }
}

/// The label used for a channel whose name could not be looked up.
pub open spec fn unknown_channel_label() -> Seq<char> {
    seq!['u', 'n', 'k', 'n', 'o', 'w', 'n', ' ', 'c', 'h', 'a', 'n', 'n', 'e', 'l']
}

/// A message read on Slack, ready to be posted to Keybase.
pub enum SlackMessage {
    Simple { username: String, channel_name: String, msg_text: String },
}

impl SlackMessage {
    pub open spec fn spec_username(&self) -> Seq<char> {
        match self {
            SlackMessage::Simple { username, .. } => username@,
        }
    }

    pub open spec fn spec_channel_name(&self) -> Seq<char> {
        match self {
            SlackMessage::Simple { channel_name, .. } => channel_name@,
        }
    }

    pub open spec fn spec_msg_text(&self) -> Seq<char> {
        match self {
            SlackMessage::Simple { msg_text, .. } => msg_text@,
        }
    }

    /// The name of the Slack channel the message was read in.
    pub fn channel_name(&self) -> (r: &str)
        ensures
            r@ == self.spec_channel_name(),
    {
        match self {
            SlackMessage::Simple { channel_name, .. } => channel_name.as_str(),
        }
    }
}

/// The name fields of a Slack user profile.
pub struct SlackProfile {
    pub first_name: Option<String>,
    pub last_name: Option<String>,
}

/// The name a user is shown under: first and last name, else the one that
/// is there, else the raw user id.
pub open spec fn display_name_of(
    user: Seq<char>,
    first: Option<Seq<char>>,
    last: Option<Seq<char>>,
) -> Seq<char> {
    match (first, last) {
        (Some(f), Some(l)) => f + seq![' '] + l,
        (Some(f), None) => f,
        (None, Some(l)) => l,
        (None, None) => user,
    }
}

/// The display name for a user whose profile lookup gave `profile`
/// (`None` where the lookup failed).
pub open spec fn profile_display_name(user: Seq<char>, profile: Option<SlackProfile>) -> Seq<char> {
    match profile {
        Some(p) => display_name_of(user, opt_view(p.first_name), opt_view(p.last_name)),
        None => user,
    }
}

/// The channel name shown for a lookup that gave `looked_up`.
pub open spec fn channel_or_unknown(looked_up: Option<Seq<char>>) -> Seq<char> {
    match looked_up {
        Some(c) => c,
        None => unknown_channel_label(),
    }
}

/// The body of a message: the decoded text, or the text itself where
/// decoding failed.
pub open spec fn decoded_or_raw(text: Seq<char>, decoded: Option<Seq<char>>) -> Seq<char> {
    match decoded {
        Some(d) => d,
        None => text,
    }
}

/// Resolves the name a Slack user is shown under.
pub fn display_name(user: &String, profile: Option<SlackProfile>) -> (r: String)
    ensures
        r@ == profile_display_name(user@, profile),
{
    match profile {
        Some(p) => match (p.first_name, p.last_name) {
            (Some(first), Some(last)) => {
                let mut name = first;
                proof {
                    reveal_strlit(" ");
                }
                name.append(" ");
                name.append(last.as_str());
                name
            },
            (Some(first), None) => first,
            (None, Some(last)) => last,
            (None, None) => user.clone(),
        },
        None => user.clone(),
    }
}

/// The part of a Slack event that the bridge reads.
pub enum SlackEvent {
    /// A standard message; each field is absent where the event lacks it.
    StandardMessage { channel: Option<String>, user: Option<String>, text: Option<String> },
    /// A message of another subtype (an edit, a bot message, ...).
    OtherMessage,
    /// Any other event.
    Other,
}

/// A standard Slack message that carries an author and a text.
pub struct SlackInbound {
    pub user: String,
    pub text: String,
    pub channel_id: Option<String>,
}

/// The message the bridge takes from an event: only a standard message
/// with both an author and a text gives one.
pub open spec fn accepted_message(event: SlackEvent) -> Option<SlackInbound> {
    match event {
        SlackEvent::StandardMessage { channel, user: Some(u), text: Some(t) } => Some(
            SlackInbound { user: u, text: t, channel_id: channel },
        ),
        _ => None,
    }
}

/// Picks out the standard messages that carry both an author and a text;
/// every other event is ignored.
pub fn accept_slack_event(event: SlackEvent) -> (r: Option<SlackInbound>)
    ensures
        r == accepted_message(event),
{
    match event {
        SlackEvent::StandardMessage { channel, user: Some(u), text: Some(t) } => Some(
            SlackInbound { user: u, text: t, channel_id: channel },
        ),
        _ => None,
    }
}

/// Builds the normalised message from what the lookups gave: the channel's
/// name (`None` where it could not be had), the author's profile (`None`
/// where the lookup failed) and the decoded text (`None` where decoding
/// failed).
pub fn build_slack_message(
    user: &String,
    text: String,
    channel_name: Option<String>,
    profile: Option<SlackProfile>,
    decoded: Option<String>,
) -> (m: SlackMessage)
    ensures
        m.spec_username() == profile_display_name(user@, profile),
        m.spec_channel_name() == channel_or_unknown(opt_view(channel_name)),
        m.spec_msg_text() == decoded_or_raw(text@, opt_view(decoded)),
{
    let username = display_name(user, profile);
    let channel_name = match channel_name {
        Some(c) => c,
        None => {
            proof {
                reveal_strlit("unknown channel");
            }
            String::from_str("unknown channel")
        },
    };
    let msg_text = match decoded {
        Some(d) => d,
        None => text,
    };
    SlackMessage::Simple { username, channel_name, msg_text }
}

/// Normalises one Slack message: resolves the author's name, falls back to
/// a fixed label for an unknown channel, and decodes HTML entities in the
/// text (keeping the text as it is where that fails).
pub fn normalize_slack_message(
    user: &String,
    text: String,
    channel_name: Option<String>,
    profile: Option<SlackProfile>,
) -> (m: SlackMessage)
    ensures
        m.spec_username() == profile_display_name(user@, profile),
        m.spec_channel_name() == channel_or_unknown(opt_view(channel_name)),
        m.spec_msg_text() == decoded_or_raw(text@, html_decoded(text@)),
{
    let decoded = decode_entities(text.as_str());
    build_slack_message(user, text, channel_name, profile, decoded)
}

/// A standard Slack message with an author and a text yields exactly one
/// normalised message, whatever the lookups gave, and its body is the text
/// with its HTML entities decoded wherever decoding succeeds.
pub proof fn lemma_standard_message_yields_one(
    channel: Option<String>,
    user: String,
    text: String,
    channel_name: Option<String>,
    profile: Option<SlackProfile>,
)
    ensures
        accepted_message(
            SlackEvent::StandardMessage { channel, user: Some(user), text: Some(text) },
        ) == Some(SlackInbound { user, text, channel_id: channel }),
        html_decoded(text@) matches Some(d) ==> decoded_or_raw(text@, html_decoded(text@)) == d,
        html_decoded(text@) is None ==> decoded_or_raw(text@, html_decoded(text@)) == text@,
{
}

/// An event that is not a standard message, or lacks its author or its
/// text, yields no message.
pub proof fn lemma_other_events_ignored(event: SlackEvent)
    requires
        !(event matches SlackEvent::StandardMessage { user: Some(_), text: Some(_), .. }),
    ensures
        accepted_message(event) is None,
{
}

/// A post to Keybase: the team, its members type, the topic and the text.
pub struct KeybasePost {
    pub team: String,
    pub members_type: String,
    pub topic_name: String,
    pub text: String,
}

/// The text a Slack message is posted to Keybase with: `<author>: <body>`.
pub open spec fn keybase_text(author: Seq<char>, body: Seq<char>) -> Seq<char> {
    author + seq![':', ' '] + body
}

/// Where and how a Slack message is posted on Keybase: in the configured
/// team, under the topic named like the Slack channel, as `<author>: <body>`.
pub fn keybase_post_for(msg: &SlackMessage, team: &String) -> (p: KeybasePost)
    ensures
        p.team@ == team@,
        p.members_type@ == seq!['t', 'e', 'a', 'm'],
        p.topic_name@ == msg.spec_channel_name(),
        p.text@ == keybase_text(msg.spec_username(), msg.spec_msg_text()),
{
    proof {
        reveal_strlit("team");
        reveal_strlit(": ");
    }
    match msg {
        SlackMessage::Simple { username, channel_name, msg_text } => {
            let mut text = username.clone();
            text.append(": ");
            text.append(msg_text.as_str());
            KeybasePost {
                team: team.clone(),
                members_type: String::from_str("team"),
                topic_name: channel_name.clone(),
                text,
            }
        },
    }
}

} // verus!
