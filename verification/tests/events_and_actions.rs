use matrix_onebot::actions::{
    check_user_info_target, find_group_room, is_text_readable, find_private_room, first_text, get_friend_list,
    get_selfs, get_supported_actions, get_version, may_hold_friend, plan_send_message, selft,
    user_info, ActionError, JoinedRoom, RoomMember, Segment, SegmentValue, SendPlan,
};
use matrix_onebot::events::{
    alt_message, event_record, get_self, group, group_decrease, group_increase, message_record,
    message_type_name, private, private_decrease, private_increase, server_timestamp, EventKind,
    MessageContent, MessageScope, NoticeDetail,
};

#[test]
fn message_type_names() {
    assert_eq!(message_type_name(&MessageContent::Audio), "Audio");
    assert_eq!(message_type_name(&MessageContent::Image { plain_url: None }), "Image");
    assert_eq!(message_type_name(&MessageContent::Text { body: "hi".to_string() }), "Text");
    assert_eq!(message_type_name(&MessageContent::VerificationRequest), "VerificationRequest");
    assert_eq!(message_type_name(&MessageContent::Custom), "_Custom");
    assert_eq!(message_type_name(&MessageContent::Unknown), "_Unknown");
}

#[test]
fn alt_messages() {
    assert_eq!(alt_message(&MessageContent::Text { body: "你好".to_string() }), "你好");
    assert_eq!(
        alt_message(&MessageContent::Image { plain_url: Some("mxc://h/abc".to_string()) }),
        "[Image: mxc://h/abc]"
    );
    assert_eq!(alt_message(&MessageContent::Image { plain_url: None }), "[Image: Encrypted]");
    assert_eq!(alt_message(&MessageContent::Video), "暂未实现");
}

#[test]
fn timestamps_fit_or_become_zero() {
    assert_eq!(server_timestamp(1_700_000_000_123), 1_700_000_000_123);
    assert_eq!(server_timestamp(i64::MAX as u64), i64::MAX);
    assert_eq!(server_timestamp(u64::MAX), 0);
}

#[test]
fn records() {
    let e = event_record("$a".to_string(), EventKind::Member, 42);
    assert_eq!((e.event_id.as_str(), e.ty.as_str(), e.timestamp), ("$a", "member", 42));
    let e = event_record("$b".to_string(), EventKind::Message, 7);
    assert_eq!(e.ty, "message");
    let m = message_record(
        "$c".to_string(),
        &MessageContent::Text { body: "hello".to_string() },
        "@alice:h".to_string(),
        9,
        "dbg".to_string(),
    );
    assert_eq!(m.ty, "Text");
    assert_eq!(m.body, "hello");
    assert_eq!(m.sender, "@alice:h");
    assert_eq!(m.timestamp, 9);
    assert_eq!(m.message_event_debug_string, "dbg");
    let m = message_record("$d".to_string(), &MessageContent::Emote, "@a:h".to_string(), 1, String::new());
    assert_eq!(m.ty, "Emote");
    assert_eq!(m.body, "");
}

#[test]
fn notices() {
    let s = get_self();
    assert_eq!(s.platform, "matrix");
    let n = group_increase("$e".into(), "!r:h".into(), "@new:h".into(), "@op:h".into());
    assert_eq!(n.id, "$e");
    match n.detail {
        NoticeDetail::GroupMemberIncrease { group_id, user_id, operator_id } => {
            assert_eq!((group_id.as_str(), user_id.as_str(), operator_id.as_str()), ("!r:h", "@new:h", "@op:h"))
        }
        other => panic!("unexpected {other:?}"),
    }
    let n = group_decrease("$e".into(), "!r:h".into(), "@old:h".into(), "@op:h".into());
    assert!(matches!(n.detail, NoticeDetail::GroupMemberDecrease { .. }));
    let n = private_increase("$f".into(), "@friend:h".into());
    assert!(matches!(n.detail, NoticeDetail::FriendIncrease { ref user_id } if user_id == "@friend:h"));
    let n = private_decrease("$g".into(), "@gone:h".into());
    assert!(matches!(n.detail, NoticeDetail::FriendDecrease { ref user_id } if user_id == "@gone:h"));
}

#[test]
fn message_events() {
    let content = MessageContent::Text { body: "hi".to_string() };
    let p = private("$m".into(), "@alice:h".into(), &content);
    assert_eq!(p.id, "$m");
    assert_eq!(p.message_id, "$m");
    assert_eq!(p.message, vec!["hi".to_string()]);
    assert_eq!(p.alt_message, "hi");
    assert_eq!(p.user_id, "@alice:h");
    assert!(matches!(p.scope, MessageScope::Private));
    let g = group("$n".into(), "!room:h".into(), "@bob:h".into(), &MessageContent::Location);
    assert_eq!(g.alt_message, "暂未实现");
    assert!(matches!(g.scope, MessageScope::Group { ref group_id } if group_id == "!room:h"));
}

#[test]
fn supported_actions_and_version() {
    let names = get_supported_actions().unwrap();
    assert_eq!(
        names,
        vec![
            "get_supported_actions",
            "get_status",
            "get_version",
            "send_message",
            "delete_message",
            "get_self_info",
            "get_user_info",
            "get_friend_list",
        ]
    );
    let v = get_version();
    assert_eq!((v.implt.as_str(), v.version.as_str(), v.onebot_version.as_str()), ("matrix-onebot", "0.1.0", "12"));
}

#[test]
fn bots() {
    assert!(get_selfs(None).is_empty());
    let bots = get_selfs(Some("@bot:h".to_string()));
    assert_eq!(bots.len(), 1);
    assert_eq!(bots[0].user_id, "@bot:h");
    assert_eq!(bots[0].platform, "matrix");
    assert_eq!(selft("@bot:h".to_string()).user_id, "@bot:h");
}

#[test]
fn user_infos() {
    let u = user_info("@alice:example.org".to_string(), Some("Alice".to_string()));
    assert_eq!(u.user_id, "@alice:example.org");
    assert_eq!(u.user_name, "alice");
    assert_eq!(u.user_displayname, "Alice");
    assert_eq!(u.user_remark, "");
    let u = user_info("@bob:h".to_string(), None);
    assert_eq!(u.user_displayname, "");
    assert!(check_user_info_target("@alice:example.org").is_ok());
    assert!(matches!(check_user_info_target("alice@"), Err(ActionError::UnsupportedParam(_))));
}

fn member(id: &str, name: Option<&str>) -> RoomMember {
    RoomMember { user_id: id.to_string(), display_name: name.map(|s| s.to_string()) }
}

#[test]
fn friend_list_takes_other_member_of_direct_pairs() {
    assert!(may_hold_friend(Some(true)));
    assert!(may_hold_friend(None));
    assert!(!may_hold_friend(Some(false)));
    let rooms = vec![
        JoinedRoom { is_direct: Some(true), members: vec![member("@bot:h", None), member("@alice:h", Some("Alice"))] },
        JoinedRoom { is_direct: Some(false), members: vec![] },
        JoinedRoom { is_direct: None, members: vec![member("@bob:h", None), member("@bot:h", Some("Bot"))] },
        JoinedRoom {
            is_direct: Some(true),
            members: vec![member("@bot:h", None), member("@c:h", None), member("@d:h", None)],
        },
    ];
    let friends = get_friend_list(&rooms, "@bot:h");
    assert_eq!(friends.len(), 2);
    assert_eq!(friends[0].user_id, "@alice:h");
    assert_eq!(friends[0].user_name, "alice");
    assert_eq!(friends[0].user_displayname, "Alice");
    assert_eq!(friends[1].user_id, "@bob:h");
    assert_eq!(friends[1].user_displayname, "");
    assert!(friends.iter().all(|f| f.user_id != "@bot:h"));
}

fn bad_param(r: Result<SendPlan, ActionError>) -> String {
    match r {
        Err(ActionError::BadParam(m)) => m,
        other => panic!("unexpected {other:?}"),
    }
}

#[test]
fn send_message_plans() {
    assert!(matches!(
        plan_send_message("group", Some("!r:h".into()), None),
        Ok(SendPlan::Group { ref group_id }) if group_id == "!r:h"
    ));
    assert_eq!(bad_param(plan_send_message("group", None, None)), "group_id is null");
    assert!(matches!(
        plan_send_message("private", None, Some("@alice:h".into())),
        Ok(SendPlan::Private { ref user_id }) if user_id == "@alice:h"
    ));
    assert_eq!(bad_param(plan_send_message("private", None, None)), "user_id is null");
    assert_eq!(bad_param(plan_send_message("private", None, Some("alice".into()))), "user_id cannot format");
    assert!(matches!(
        plan_send_message("channel", None, None),
        Err(ActionError::UnsupportedParam(ref t)) if t == "channel"
    ));
}

#[test]
fn room_lookups() {
    let ids = vec!["!a:h".to_string(), "!b:h".to_string(), "!b:h".to_string()];
    assert_eq!(find_group_room(&ids, "!b:h"), Some(1));
    assert_eq!(find_group_room(&ids, "!c:h"), None);
    let rooms = vec![
        Some(vec!["@bot:h".to_string(), "@alice:h".to_string()]),
        None,
        Some(vec!["@bot:h".to_string(), "@alice:h".to_string(), "@x:h".to_string()]),
        Some(vec!["@alice:h".to_string(), "@bot:h".to_string()]),
        Some(vec!["@bot:h".to_string(), "@bob:h".to_string()]),
    ];
    assert_eq!(find_private_room(&rooms, "@alice:h"), Some(3));
    assert_eq!(find_private_room(&rooms, "@bob:h"), Some(4));
    assert_eq!(find_private_room(&rooms, "@carol:h"), None);
}

#[test]
fn message_text_extraction() {
    let seg = |v: Option<SegmentValue>| Segment { text: v };
    match first_text(&vec![seg(Some(SegmentValue::Str("hi".into())))]) {
        Ok(t) => assert_eq!(t, "hi"),
        Err(e) => panic!("unexpected {e:?}"),
    }
    match first_text(&vec![]) {
        Err(ActionError::BadParam(m)) => assert_eq!(m, "message is null: MsgSegment"),
        other => panic!("unexpected {other:?}"),
    }
    match first_text(&vec![seg(None)]) {
        Err(ActionError::BadParam(m)) => assert_eq!(m, "message is null: text"),
        other => panic!("unexpected {other:?}"),
    }
}

#[test]
fn text_readability() {
    assert!(is_text_readable(&vec![]));
    assert!(is_text_readable(&vec![Segment { text: None }]));
    assert!(is_text_readable(&vec![Segment { text: Some(SegmentValue::Str("a".into())) }]));
    assert!(!is_text_readable(&vec![Segment { text: Some(SegmentValue::Other) }]));
}

#[test]
fn welcome_banner_names_version() {
    assert_eq!(
        matrix_onebot::actions::welcome_banner(),
        "======\nMATRIX-ONEBOT v0.1.0\n欢迎! 当前处于 v0.x.x 快速更新不稳定版本, 不会有预先的变动通知!\n======"
    );
}

#[test]
fn user_info_target_error_carries_library_message() {
    match check_user_info_target("@alice") {
        Err(ActionError::UnsupportedParam(m)) => assert!(!m.is_empty()),
        other => panic!("unexpected {other:?}"),
    }
}

#[test]
fn recorded_text_body_is_what_the_application_gets() {
    let content = MessageContent::Text { body: "晚上好".to_string() };
    let record = message_record("$t".into(), &content, "@a:h".into(), 0, String::new());
    assert_eq!(record.body, alt_message(&content));
    let record = message_record("$u".into(), &MessageContent::Notice, "@a:h".into(), 0, String::new());
    assert_eq!(record.body, "");
}
