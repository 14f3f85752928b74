use matrix_onebot::retry::{JoinBackoff, JoinFailureAction};
use matrix_onebot::routing::{
    find_friend, is_intercepted, member_notice_kind, route_by_direct_flag, route_by_member_count,
    should_join_invited_room, MemberNoticeKind, Membership, MessageRoute, MessageStep,
};

#[test]
fn join_backoff_schedule() {
    let mut b = JoinBackoff::new();
    let mut waits = Vec::new();
    loop {
        match b.on_join_failed() {
            JoinFailureAction::RetryAfter(w) => waits.push(w),
            JoinFailureAction::GiveUpAfter(w) => {
                waits.push(w);
                break;
            }
        }
    }
    assert_eq!(waits, vec![2, 4, 8, 16, 32, 64, 128, 256, 512, 1024, 2048]);
    assert_eq!(waits.iter().sum::<u64>(), 4094);
}

#[test]
fn own_messages_are_intercepted_when_configured() {
    assert!(is_intercepted(true, "@bot:h", "@bot:h"));
    assert!(!is_intercepted(false, "@bot:h", "@bot:h"));
    assert!(!is_intercepted(true, "@alice:h", "@bot:h"));
}

#[test]
fn message_routes() {
    assert_eq!(route_by_member_count(2), MessageStep::AskIsDirect);
    assert_eq!(route_by_member_count(1), MessageStep::Deliver(MessageRoute::Group));
    assert_eq!(route_by_member_count(3), MessageStep::Deliver(MessageRoute::Group));
    assert_eq!(route_by_direct_flag(Some(true)), MessageRoute::Private);
    assert_eq!(route_by_direct_flag(Some(false)), MessageRoute::Group);
    assert_eq!(route_by_direct_flag(None), MessageRoute::Group);
}

#[test]
fn member_notices() {
    assert_eq!(member_notice_kind(Some(true), Membership::Join), Some(MemberNoticeKind::FriendIncrease));
    assert_eq!(member_notice_kind(Some(true), Membership::Leave), Some(MemberNoticeKind::FriendDecrease));
    assert_eq!(member_notice_kind(Some(true), Membership::Knock), Some(MemberNoticeKind::FriendDecrease));
    assert_eq!(member_notice_kind(Some(true), Membership::Ban), None);
    assert_eq!(member_notice_kind(Some(false), Membership::Join), Some(MemberNoticeKind::GroupIncrease));
    assert_eq!(member_notice_kind(None, Membership::Leave), Some(MemberNoticeKind::GroupDecrease));
    assert_eq!(member_notice_kind(None, Membership::Invite), None);
    assert_eq!(member_notice_kind(Some(false), Membership::Other), None);
}

#[test]
fn friend_is_first_other_member() {
    let members = vec!["@bot:h".to_string(), "@alice:h".to_string(), "@bob:h".to_string()];
    assert_eq!(find_friend(&members, "@bot:h"), Some("@alice:h".to_string()));
    assert_eq!(find_friend(&members, "@alice:h"), Some("@bot:h".to_string()));
    assert_eq!(find_friend(&vec!["@bot:h".to_string()], "@bot:h"), None);
    assert_eq!(find_friend(&vec![], "@bot:h"), None);
}

#[test]
fn invitations_for_own_account_are_joined() {
    assert!(should_join_invited_room("@bot:h", "@bot:h"));
    assert!(!should_join_invited_room("@alice:h", "@bot:h"));
}

#[test]
fn join_backoff_reports_its_wait() {
    let mut b = JoinBackoff::new();
    assert_eq!(b.current_wait(), 2);
    assert!(b.accepts_failure());
    for _ in 0..10 {
        assert!(matches!(b.on_join_failed(), JoinFailureAction::RetryAfter(_)));
    }
    assert_eq!(b.current_wait(), 2048);
    assert!(b.accepts_failure());
    assert_eq!(b.on_join_failed(), JoinFailureAction::GiveUpAfter(2048));
    assert_eq!(b.current_wait(), 4096);
    assert!(!b.accepts_failure());
}
