use keybase_slack_bridge::bridge_info::KeybaseInfo;
use keybase_slack_bridge::keybase_profile::{
    primary_picture_url, KBProfileError, KeybasePicPrimary, KeybasePics, KeybaseProfile,
    KeybaseProfilePictureCache, KeybaseProfileResp,
};
use keybase_slack_bridge::keybase_side::{
    extract_chat, route_keybase_notification, slack_post_for, ChatChannel, KeybaseNotification,
    MessageText, MsgContent, MsgNotification, MsgSender, MsgSummary, Rejection,
};
use keybase_slack_bridge::slack_side::{
    accept_slack_event, build_slack_message, display_name, keybase_post_for,
    normalize_slack_message, SlackEvent, SlackMessage, SlackProfile,
};

fn s(x: &str) -> String {
    x.to_string()
}

fn parts(m: &SlackMessage) -> (String, String, String) {
    match m {
        SlackMessage::Simple { username, channel_name, msg_text } => {
            (username.clone(), channel_name.clone(), msg_text.clone())
        }
    }
}

fn profile(first: Option<&str>, last: Option<&str>) -> Option<SlackProfile> {
    Some(SlackProfile { first_name: first.map(s), last_name: last.map(s) })
}

fn info() -> KeybaseInfo {
    KeybaseInfo { paper_key: s("paper"), team: s("bridged"), bot_name: s("bridgebot") }
}

fn notification(
    body: Option<&str>,
    team: Option<&str>,
    topic: Option<&str>,
    sender: Option<&str>,
) -> KeybaseNotification {
    KeybaseNotification::Chat(MsgNotification {
        msg: Some(MsgSummary {
            content: Some(MsgContent { text: Some(MessageText { body: body.map(s) }) }),
            channel: Some(ChatChannel { name: team.map(s), topic_name: topic.map(s) }),
            sender: Some(MsgSender { username: sender.map(s) }),
        }),
    })
}

fn good_notification() -> KeybaseNotification {
    notification(Some("hello"), Some("bridged"), Some("general"), Some("bob"))
}

fn lookup(url: Option<&str>) -> KeybaseProfileResp {
    KeybaseProfileResp {
        them: vec![KeybaseProfile {
            pictures: Some(KeybasePics { primary: Some(KeybasePicPrimary { url: url.map(s) }) }),
        }],
    }
}

#[test]
fn html_entities_are_decoded() {
    let m = normalize_slack_message(&s("U1"), s("&amp;hi"), Some(s("general")), None);
    assert_eq!(parts(&m).2, "&hi");
}

#[test]
fn undecodable_text_is_kept() {
    let m = normalize_slack_message(&s("U1"), s("a &notanentity; b"), None, None);
    assert_eq!(parts(&m).2, "a &notanentity; b");
}

#[test]
fn plain_text_is_unchanged() {
    let m = normalize_slack_message(&s("U1"), s("just text"), None, None);
    assert_eq!(parts(&m).2, "just text");
}

#[test]
fn display_name_first_and_last() {
    assert_eq!(display_name(&s("U1"), profile(Some("A"), Some("B"))), "A B");
}

#[test]
fn display_name_first_only() {
    assert_eq!(display_name(&s("U1"), profile(Some("A"), None)), "A");
}

#[test]
fn display_name_last_only() {
    assert_eq!(display_name(&s("U1"), profile(None, Some("B"))), "B");
}

#[test]
fn display_name_neither() {
    assert_eq!(display_name(&s("U1"), profile(None, None)), "U1");
}

#[test]
fn display_name_failed_lookup() {
    assert_eq!(display_name(&s("U1"), None), "U1");
}

#[test]
fn unknown_channel_label_used() {
    let m = build_slack_message(&s("U1"), s("hi"), None, None, None);
    assert_eq!(parts(&m), (s("U1"), s("unknown channel"), s("hi")));
    assert_eq!(m.channel_name(), "unknown channel");
}

#[test]
fn build_uses_decoded_text() {
    let m = build_slack_message(&s("U1"), s("&lt;x"), Some(s("c")), None, Some(s("<x")));
    assert_eq!(parts(&m).2, "<x");
}

#[test]
fn standard_message_accepted() {
    let ev = SlackEvent::StandardMessage {
        channel: Some(s("C1")),
        user: Some(s("U1")),
        text: Some(s("hi")),
    };
    let m = accept_slack_event(ev).unwrap();
    assert_eq!((m.user, m.text, m.channel_id), (s("U1"), s("hi"), Some(s("C1"))));
}

#[test]
fn message_without_author_ignored() {
    let ev = SlackEvent::StandardMessage { channel: Some(s("C1")), user: None, text: Some(s("hi")) };
    assert!(accept_slack_event(ev).is_none());
}

#[test]
fn message_without_text_ignored() {
    let ev = SlackEvent::StandardMessage { channel: None, user: Some(s("U1")), text: None };
    assert!(accept_slack_event(ev).is_none());
}

#[test]
fn other_events_ignored() {
    assert!(accept_slack_event(SlackEvent::OtherMessage).is_none());
    assert!(accept_slack_event(SlackEvent::Other).is_none());
}

#[test]
fn slack_to_keybase_scenario() {
    let inbound = accept_slack_event(SlackEvent::StandardMessage {
        channel: Some(s("C1")),
        user: Some(s("U1")),
        text: Some(s("hi")),
    })
    .unwrap();
    let m = normalize_slack_message(
        &inbound.user,
        inbound.text,
        Some(s("general")),
        profile(Some("Alice"), None),
    );
    let post = keybase_post_for(&m, &s("bridged"));
    assert_eq!(post.team, "bridged");
    assert_eq!(post.members_type, "team");
    assert_eq!(post.topic_name, "general");
    assert_eq!(post.text, "Alice: hi");
}

#[test]
fn keybase_to_slack_scenario() {
    let chat = route_keybase_notification(good_notification(), &info()).ok().unwrap();
    let post = slack_post_for(chat, Some(s("https://example.org/bob.png")));
    assert_eq!(post.channel, "general");
    assert_eq!(post.username, "bob");
    assert_eq!(post.text, "hello");
    assert_eq!(post.icon_url, Some(s("https://example.org/bob.png")));
}

#[test]
fn keybase_to_slack_without_avatar() {
    let chat = route_keybase_notification(good_notification(), &info()).ok().unwrap();
    let post = slack_post_for(chat, None);
    assert_eq!(post.icon_url, None);
}

fn rejection(n: KeybaseNotification) -> Rejection {
    match extract_chat(n) {
        Ok(_) => panic!("expected a rejection"),
        Err(e) => e,
    }
}

#[test]
fn missing_message_dropped() {
    let n = KeybaseNotification::Chat(MsgNotification { msg: None });
    assert_eq!(rejection(n), Rejection::MissingMessage);
}

#[test]
fn missing_content_dropped() {
    let n = KeybaseNotification::Chat(MsgNotification {
        msg: Some(MsgSummary {
            content: None,
            channel: Some(ChatChannel { name: Some(s("bridged")), topic_name: Some(s("general")) }),
            sender: Some(MsgSender { username: Some(s("bob")) }),
        }),
    });
    assert_eq!(rejection(n), Rejection::MissingContent);
}

#[test]
fn missing_text_dropped() {
    let n = KeybaseNotification::Chat(MsgNotification {
        msg: Some(MsgSummary {
            content: Some(MsgContent { text: None }),
            channel: Some(ChatChannel { name: Some(s("bridged")), topic_name: Some(s("general")) }),
            sender: Some(MsgSender { username: Some(s("bob")) }),
        }),
    });
    assert_eq!(rejection(n), Rejection::MissingText);
}

#[test]
fn missing_body_dropped() {
    let n = notification(None, Some("bridged"), Some("general"), Some("bob"));
    assert_eq!(rejection(n), Rejection::MissingBody);
}

#[test]
fn missing_team_dropped() {
    let n = notification(Some("hello"), None, Some("general"), Some("bob"));
    assert_eq!(rejection(n), Rejection::MissingTeam);
}

#[test]
fn missing_topic_dropped() {
    let n = notification(Some("hello"), Some("bridged"), None, Some("bob"));
    assert_eq!(rejection(n), Rejection::MissingTopic);
}

#[test]
fn missing_username_dropped() {
    let n = notification(Some("hello"), Some("bridged"), Some("general"), None);
    assert_eq!(rejection(n), Rejection::MissingUsername);
}

#[test]
fn missing_channel_and_sender_dropped() {
    let no_channel = KeybaseNotification::Chat(MsgNotification {
        msg: Some(MsgSummary {
            content: Some(MsgContent { text: Some(MessageText { body: Some(s("hi")) }) }),
            channel: None,
            sender: Some(MsgSender { username: Some(s("bob")) }),
        }),
    });
    assert_eq!(rejection(no_channel), Rejection::MissingChannel);
    let no_sender = KeybaseNotification::Chat(MsgNotification {
        msg: Some(MsgSummary {
            content: Some(MsgContent { text: Some(MessageText { body: Some(s("hi")) }) }),
            channel: Some(ChatChannel { name: Some(s("bridged")), topic_name: Some(s("general")) }),
            sender: None,
        }),
    });
    assert_eq!(rejection(no_sender), Rejection::MissingSender);
}

#[test]
fn other_notification_dropped() {
    assert_eq!(rejection(KeybaseNotification::Other), Rejection::NotChat);
    let r = route_keybase_notification(KeybaseNotification::Other, &info());
    assert!(matches!(r, Err(Rejection::NotChat)));
}

#[test]
fn foreign_team_dropped() {
    let n = notification(Some("hello"), Some("elsewhere"), Some("general"), Some("bob"));
    assert!(matches!(route_keybase_notification(n, &info()), Err(Rejection::ForeignTeam)));
}

#[test]
fn own_message_dropped() {
    let n = notification(Some("hello"), Some("bridged"), Some("general"), Some("bridgebot"));
    assert!(matches!(route_keybase_notification(n, &info()), Err(Rejection::OwnMessage)));
}

#[test]
fn incomplete_routing_dropped() {
    let n = notification(Some("hello"), Some("bridged"), None, Some("bob"));
    assert!(matches!(route_keybase_notification(n, &info()), Err(Rejection::MissingTopic)));
}

#[test]
fn primary_picture_of_empty_lookup() {
    assert_eq!(primary_picture_url(&KeybaseProfileResp { them: vec![] }), None);
    let no_pics = KeybaseProfileResp { them: vec![KeybaseProfile { pictures: None }] };
    assert_eq!(primary_picture_url(&no_pics), None);
    assert_eq!(primary_picture_url(&lookup(Some("u"))), Some(s("u")));
}

#[test]
fn cache_starts_empty() {
    let mut cache = KeybaseProfilePictureCache::default();
    assert_eq!(cache.cached_picture(&s("bob")), None);
}

#[test]
fn successful_lookup_is_cached() {
    let mut cache = KeybaseProfilePictureCache::new();
    assert_eq!(cache.cached_picture(&s("bob")), None);
    let r = cache.record_lookup(&s("bob"), Ok(lookup(Some("https://example.org/bob.png"))));
    assert_eq!(r.ok(), Some(s("https://example.org/bob.png")));
    assert_eq!(cache.cached_picture(&s("bob")), Some(s("https://example.org/bob.png")));
    assert_eq!(cache.cached_picture(&s("bob")), Some(s("https://example.org/bob.png")));
    assert_eq!(cache.cached_picture(&s("alice")), None);
}

#[test]
fn lookup_without_picture_not_cached() {
    let mut cache = KeybaseProfilePictureCache::new();
    let r = cache.record_lookup(&s("bob"), Ok(lookup(None)));
    assert!(matches!(r, Err(KBProfileError::Simple(_))));
    assert_eq!(cache.cached_picture(&s("bob")), None);
}

#[test]
fn failed_lookup_not_cached() {
    let mut cache = KeybaseProfilePictureCache::new();
    let err = serde_json::from_str::<serde_json::Value>("not json").unwrap_err();
    let r = cache.record_lookup(&s("bob"), Err(KBProfileError::Parsing(err)));
    assert!(matches!(r, Err(KBProfileError::Parsing(_))));
    assert_eq!(cache.cached_picture(&s("bob")), None);
}

#[test]
fn refreshed_lookup_replaces_entry() {
    let mut cache = KeybaseProfilePictureCache::new();
    let _ = cache.record_lookup(&s("bob"), Ok(lookup(Some("old"))));
    let _ = cache.record_lookup(&s("bob"), Ok(lookup(Some("new"))));
    assert_eq!(cache.cached_picture(&s("bob")), Some(s("new")));
}
