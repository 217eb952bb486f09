//! The Keybase side: which chat notifications are forwarded to Slack, and
//! the Slack post each one becomes.
use vstd::prelude::*;
use crate::bridge_info::KeybaseInfo;

verus! {

/// A notification of the Keybase chat API, with the fields the bridge reads.
pub enum KeybaseNotification {
    Chat(MsgNotification),
    /// Any other kind of notification (a wallet payment, ...).
    Other,
}

pub struct MsgNotification {
    pub msg: Option<MsgSummary>,
}

pub struct MsgSummary {
    pub content: Option<MsgContent>,
    pub channel: Option<ChatChannel>,
    pub sender: Option<MsgSender>,
}

pub struct MsgContent {
    pub text: Option<MessageText>,
}

pub struct MessageText {
    pub body: Option<String>,
}

pub struct ChatChannel {
    pub name: Option<String>,
    pub topic_name: Option<String>,
}

pub struct MsgSender {
    pub username: Option<String>,
}

/// Why a notification is not forwarded.
#[derive(PartialEq, Eq, Structural, Clone, Copy, Debug)]
pub enum Rejection {
    NotChat,
    MissingMessage,
    MissingContent,
    MissingText,
    MissingBody,
    MissingChannel,
    MissingTeam,
    MissingTopic,
    MissingSender,
    MissingUsername,
    /// The message was posted in a team that is not bridged.
    ForeignTeam,
    /// The message was posted by the bridge itself.
    OwnMessage,
}

/// A chat message read on Keybase with every field the bridge needs.
pub struct KeybaseChat {
    pub team: String,
    pub topic: String,
    pub sender: String,
    pub body: String,
}

/// The fields of a notification, each `None` where it or a field on its
/// path is absent.
pub open spec fn summary_of(n: KeybaseNotification) -> Option<MsgSummary> {
    match n {
        KeybaseNotification::Chat(c) => c.msg,
        KeybaseNotification::Other => None,
    }
}

pub open spec fn body_of(s: MsgSummary) -> Option<String> {
    match s.content {
        Some(c) => match c.text {
            Some(t) => t.body,
            None => None,
        },
        None => None,
    }
}

pub open spec fn team_of(s: MsgSummary) -> Option<String> {
    match s.channel {
        Some(c) => c.name,
        None => None,
    }
}

pub open spec fn topic_of(s: MsgSummary) -> Option<String> {
    match s.channel {
        Some(c) => c.topic_name,
        None => None,
    }
}

pub open spec fn sender_of(s: MsgSummary) -> Option<String> {
    match s.sender {
        Some(x) => x.username,
        None => None,
    }
}

/// A notification is complete when it is a chat message with a body, a
/// team, a topic and a sender.
pub open spec fn is_complete(n: KeybaseNotification) -> bool {
    &&& summary_of(n) is Some
    &&& body_of(summary_of(n)->0) is Some
    &&& team_of(summary_of(n)->0) is Some
    &&& topic_of(summary_of(n)->0) is Some
    &&& sender_of(summary_of(n)->0) is Some
}

/// The chat message held by a complete notification.
pub open spec fn chat_of(n: KeybaseNotification) -> KeybaseChat
    recommends
        is_complete(n),
{
    let s = summary_of(n)->0;
    KeybaseChat {
        team: team_of(s)->0,
        topic: topic_of(s)->0,
        sender: sender_of(s)->0,
        body: body_of(s)->0,
    }
}

/// The first field missing on the path from a notification to its body,
/// team, topic and sender; `None` when the notification is complete.
pub open spec fn missing_field(n: KeybaseNotification) -> Option<Rejection> {
    match n {
        KeybaseNotification::Other => Some(Rejection::NotChat),
        KeybaseNotification::Chat(c) => match c.msg {
            None => Some(Rejection::MissingMessage),
            Some(s) => if s.content is None {
                Some(Rejection::MissingContent)
            } else if s.content->0.text is None {
                Some(Rejection::MissingText)
            } else if body_of(s) is None {
                Some(Rejection::MissingBody)
            } else if s.channel is None {
                Some(Rejection::MissingChannel)
            } else if team_of(s) is None {
                Some(Rejection::MissingTeam)
            } else if topic_of(s) is None {
                Some(Rejection::MissingTopic)
            } else if s.sender is None {
                Some(Rejection::MissingSender)
            } else if sender_of(s) is None {
                Some(Rejection::MissingUsername)
            } else {
                None
            },
        },
    }
}

/// Takes the chat message out of a notification. A notification that lacks
/// any field on the way is rejected whole, naming the first field missing.
pub fn extract_chat(n: KeybaseNotification) -> (r: Result<KeybaseChat, Rejection>)
    ensures
        r is Ok <==> is_complete(n),
        r matches Ok(c) ==> c == chat_of(n),
        r matches Err(e) ==> missing_field(n) == Some(e),
{
    let s = match n {
        KeybaseNotification::Chat(c) => match c.msg {
            Some(s) => s,
            None => return Err(Rejection::MissingMessage),
        },
        KeybaseNotification::Other => return Err(Rejection::NotChat),
    };
    let body = match s.content {
        Some(ct) => match ct.text {
            Some(t) => match t.body {
                Some(b) => b,
                None => return Err(Rejection::MissingBody),
            },
            None => return Err(Rejection::MissingText),
        },
        None => return Err(Rejection::MissingContent),
    };
    let (team, topic) = match s.channel {
        Some(ch) => match (ch.name, ch.topic_name) {
            (Some(team), Some(topic)) => (team, topic),
            (None, _) => return Err(Rejection::MissingTeam),
            (Some(_), None) => return Err(Rejection::MissingTopic),
        },
        None => return Err(Rejection::MissingChannel),
    };
    let sender = match s.sender {
        Some(x) => match x.username {
            Some(u) => u,
            None => return Err(Rejection::MissingUsername),
        },
        None => return Err(Rejection::MissingSender),
    };
    Ok(KeybaseChat { team, topic, sender, body })
}

/// A notification is forwarded when it is complete, was posted in the
/// bridged team, and was not posted by the bridge itself.
pub open spec fn is_forwarded(n: KeybaseNotification, info: KeybaseInfo) -> bool {
    &&& is_complete(n)
    &&& chat_of(n).team@ == info.team@
    &&& chat_of(n).sender@ != info.bot_name@
}

/// Decides whether a Keybase notification goes on to Slack: it must be
/// complete, come from the bridged team, and not come from the bridge's own
/// Keybase identity.
pub fn route_keybase_notification(n: KeybaseNotification, info: &KeybaseInfo) -> (r: Result<
    KeybaseChat,
    Rejection,
>)
    ensures
        r is Ok <==> is_forwarded(n, *info),
        r matches Ok(c) ==> c == chat_of(n),
        !is_complete(n) ==> (r matches Err(e) && missing_field(n) == Some(e)),
        is_complete(n) && chat_of(n).team@ != info.team@ ==> r == Err::<KeybaseChat, Rejection>(
            Rejection::ForeignTeam,
        ),
        is_complete(n) && chat_of(n).team@ == info.team@ && chat_of(n).sender@ == info.bot_name@
            ==> r == Err::<KeybaseChat, Rejection>(Rejection::OwnMessage),
{
    let chat = match extract_chat(n) {
        Ok(c) => c,
        Err(e) => return Err(e),
    };
    if chat.team != info.team {
        return Err(Rejection::ForeignTeam);
    }
    if chat.sender == info.bot_name {
        return Err(Rejection::OwnMessage);
    }
    Ok(chat)
}

/// A notification that lacks any of the message, its content, the text
/// body, the team, the topic or the sender's name is never forwarded, and
/// its rejection names the first such field.
pub proof fn lemma_incomplete_never_forwarded(n: KeybaseNotification, info: KeybaseInfo)
    requires
        !is_complete(n),
    ensures
        !is_forwarded(n, info),
        missing_field(n) is Some,
{
}

/// A notification is complete exactly when no field on its path is missing.
pub proof fn lemma_complete_iff_nothing_missing(n: KeybaseNotification)
    ensures
        is_complete(n) <==> missing_field(n) is None,
{
}

/// A complete notification from a team other than the bridged one is
/// dropped.
pub proof fn lemma_foreign_team_dropped(n: KeybaseNotification, info: KeybaseInfo)
    requires
        is_complete(n),
        chat_of(n).team@ != info.team@,
    ensures
        !is_forwarded(n, info),
{
}

/// A notification sent by the bridge's own Keybase identity is dropped,
/// even from the bridged team: the bridge never echoes its own posts.
pub proof fn lemma_own_message_dropped(n: KeybaseNotification, info: KeybaseInfo)
    requires
        chat_of(n).sender@ == info.bot_name@,
    ensures
        !is_forwarded(n, info),
{
}

/// A post to Slack: the channel, the author name shown, the text, and the
/// avatar shown beside it, if any.
pub struct SlackPost {
    pub channel: String,
    pub username: String,
    pub text: String,
    pub icon_url: Option<String>,
}

/// The Slack post a forwarded Keybase message becomes: in the channel named
/// like its topic, under the sender's name, with the avatar found for the
/// sender, if any.
pub fn slack_post_for(chat: KeybaseChat, avatar: Option<String>) -> (p: SlackPost)
    ensures
        p.channel@ == chat.topic@,
        p.username@ == chat.sender@,
        p.text@ == chat.body@,
        p.icon_url == avatar,
{
    SlackPost { channel: chat.topic, username: chat.sender, text: chat.body, icon_url: avatar }
}

} // verus!
