//! Decisions the event handlers take on Matrix events: which events reach
//! the application, as what kind of OneBot event, and which invitations are
//! accepted.

use vstd::prelude::*;
use crate::text::same_text;

verus! {

/// Whether a room message is kept from the application: it is when the
/// configuration says so and the bridge's own account sent it.
pub fn is_intercepted(intercept_self: bool, sender: &str, own_user_id: &str) -> (r: bool)
    ensures
        r == (intercept_self && sender@ == own_user_id@),
{
    intercept_self && same_text(sender, own_user_id)
}

/// The kind of OneBot message event a room message becomes.
#[derive(Clone, Copy, Debug, PartialEq, Eq)]
pub enum MessageRoute {
    Private,
    Group,
}

/// The next step in routing a room message.
#[derive(Clone, Copy, Debug, PartialEq, Eq)]
pub enum MessageStep {
    /// Find out whether the room is a direct room, then call
    /// `route_by_direct_flag`.
    AskIsDirect,
    /// The message is delivered as this kind of event.
    Deliver(MessageRoute),
}

/// A room message is private only in a room of two members that is known
/// to be direct; `is_direct` is `None` when that could not be found out.
pub open spec fn message_route(joined_members: nat, is_direct: Option<bool>) -> MessageRoute {
    if joined_members == 2 && is_direct == Some(true) {
        MessageRoute::Private
    } else {
        MessageRoute::Group
    }
}

/// First step of routing a room message, by the number of joined members
/// of its room. A room with a message has at least one member.
pub fn route_by_member_count(joined_members: usize) -> (r: MessageStep)
    requires
        joined_members > 0,
    ensures
        joined_members == 2 ==> r == MessageStep::AskIsDirect,
        joined_members != 2 ==> r == MessageStep::Deliver(MessageRoute::Group),
{
    if joined_members == 2 {
        MessageStep::AskIsDirect
    } else {
        MessageStep::Deliver(MessageRoute::Group)
    }
}

/// Second step, for a room of two members.
pub fn route_by_direct_flag(is_direct: Option<bool>) -> (r: MessageRoute)
    ensures
        r == message_route(2, is_direct),
{
    match is_direct {
        Some(true) => MessageRoute::Private,
        _ => MessageRoute::Group,
    }
}

/// The two steps together route every room message as `message_route`
/// says, and ask whether the room is direct only when it has two members.
pub proof fn lemma_message_routing(joined_members: nat, is_direct: Option<bool>)
    requires
        joined_members > 0,
    ensures
        joined_members != 2 ==> message_route(joined_members, is_direct) == MessageRoute::Group,
        joined_members == 2 ==> message_route(joined_members, is_direct) == message_route(
            2,
            is_direct,
        ),
        message_route(joined_members, is_direct) == MessageRoute::Private ==> joined_members == 2
            && is_direct == Some(true),
{
}

/// The membership state a membership event sets.
#[derive(Clone, Copy, Debug, PartialEq, Eq)]
pub enum Membership {
    Ban,
    Invite,
    Join,
    Knock,
    Leave,
    Other,
}

/// The kind of OneBot notice a membership event becomes.
#[derive(Clone, Copy, Debug, PartialEq, Eq)]
pub enum MemberNoticeKind {
    FriendIncrease,
    FriendDecrease,
    GroupIncrease,
    GroupDecrease,
}

/// The notice for a membership event, if any. `is_direct` is `None` when it
/// could not be found out whether the room is direct; such a room counts as
/// a group room. A join adds a friend or member; a leave or a knock removes
/// one; bans, invitations and other states give no notice.
pub fn member_notice_kind(is_direct: Option<bool>, membership: Membership) -> (r: Option<
    MemberNoticeKind,
>)
    ensures
        is_direct == Some(true) ==> r == match membership {
            Membership::Join => Some(MemberNoticeKind::FriendIncrease),
            Membership::Knock | Membership::Leave => Some(MemberNoticeKind::FriendDecrease),
            _ => None::<MemberNoticeKind>,
        },
        is_direct != Some(true) ==> r == match membership {
            Membership::Join => Some(MemberNoticeKind::GroupIncrease),
            Membership::Knock | Membership::Leave => Some(MemberNoticeKind::GroupDecrease),
            _ => None::<MemberNoticeKind>,
        },
{
    let direct = match is_direct {
        Some(d) => d,
        None => false,
    };
    match membership {
        Membership::Join => {
            if direct {
                Some(MemberNoticeKind::FriendIncrease)
            } else {
                Some(MemberNoticeKind::GroupIncrease)
            }
        },
        Membership::Knock | Membership::Leave => {
            if direct {
                Some(MemberNoticeKind::FriendDecrease)
            } else {
                Some(MemberNoticeKind::GroupDecrease)
            }
        },
        _ => None,
    }
}

/// The friend in a direct room that gained a member: the first joined member
/// other than the sender of the membership event.
pub fn find_friend(joined_members: &Vec<String>, sender: &str) -> (r: Option<String>)
    ensures
        r is None <==> forall|i: int|
            0 <= i < joined_members@.len() ==> #[trigger] joined_members@[i]@ == sender@,
        r matches Some(friend) ==> exists|i: int|
            0 <= i < joined_members@.len() && friend@ == joined_members@[i]@
                && joined_members@[i]@ != sender@ && forall|j: int|
                0 <= j < i ==> #[trigger] joined_members@[j]@ == sender@,
{
    let n = joined_members.len();
    let mut i: usize = 0;
    while i < n
        invariant
            n == joined_members@.len(),
            i <= n,
            forall|j: int| 0 <= j < i ==> #[trigger] joined_members@[j]@ == sender@,
        decreases n - i,
    {
        if !same_text(joined_members[i].as_str(), sender) {
            let friend = joined_members[i].clone();
            assert(friend@ == joined_members@[i as int]@);
            return Some(friend);
        }
        i = i + 1;
    }
    None
}

/// An invitation is accepted when it invites the bridge's own account.
pub fn should_join_invited_room(invited_user_id: &str, own_user_id: &str) -> (r: bool)
    ensures
        r == (invited_user_id@ == own_user_id@),
{
    same_text(invited_user_id, own_user_id)
}

} // verus!
