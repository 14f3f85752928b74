//! The OneBot actions the bridge answers: the checks and lookups they make
//! and the values they return.

use vstd::prelude::*;
use vstd::string::*;
use crate::events::{platform_name, SelfId};
use crate::ids::{check_user_id, user_id_parse_error, user_id_valid, user_name, user_name_of};
use crate::text::same_text;

verus! {

/// Why an action failed, with the message sent back with the error.
#[derive(Debug)]
pub enum ActionError {
    BadParam(String),
    UnsupportedParam(String),
    GroupNotExist(String),
    FriendNotExist(String),
    MatrixClientError(String),
    ClientNotInitialized(String),
}

/// The name of this OneBot implementation.
pub open spec fn implementation_name() -> Seq<char> {
    "matrix-onebot"@
}

/// The version of this implementation.
pub open spec fn implementation_version() -> Seq<char> {
    "0.1.0"@
}

/// The OneBot standard version the implementation follows.
pub open spec fn onebot_standard_version() -> Seq<char> {
    "12"@
}

/// The actions the implementation answers, in the order it lists them.
pub open spec fn supported_actions() -> Seq<Seq<char>> {
    seq![
        "get_supported_actions"@,
        "get_status"@,
        "get_version"@,
        "send_message"@,
        "delete_message"@,
        "get_self_info"@,
        "get_user_info"@,
        "get_friend_list"@,
    ]
}

/// The supported actions are eight different names, among them the one
/// that lists them.
pub proof fn lemma_supported_actions_distinct()
    ensures
        supported_actions().len() == 8,
        supported_actions().no_duplicates(),
        supported_actions().contains("get_supported_actions"@),
{
    reveal_strlit("get_supported_actions");
    reveal_strlit("get_status");
    reveal_strlit("get_version");
    reveal_strlit("send_message");
    reveal_strlit("delete_message");
    reveal_strlit("get_self_info");
    reveal_strlit("get_user_info");
    reveal_strlit("get_friend_list");
    let s = supported_actions();
    assert(s[0] == "get_supported_actions"@);
    assert forall|i: int, j: int| 0 <= i < s.len() && 0 <= j < s.len() && i != j implies s[i]
        != s[j] by {
        if s[i] == s[j] {
            assert(s[i].len() == s[j].len());
            assert(s[i][4] == s[j][4]);
            assert(s[i][5] == s[j][5]);
        }
    }
}

/// The names of the actions the implementation answers.
pub fn get_supported_actions() -> (r: Result<Vec<&'static str>, ActionError>)
    ensures
        r matches Ok(names) && names@.map_values(|s: &'static str| s@) == supported_actions(),
{
    let mut names: Vec<&'static str> = Vec::new();
    names.push("get_supported_actions");
    names.push("get_status");
    names.push("get_version");
    names.push("send_message");
    names.push("delete_message");
    names.push("get_self_info");
    names.push("get_user_info");
    names.push("get_friend_list");
    assert(names@.map_values(|s: &'static str| s@) =~= supported_actions());
    Ok(names)
}

/// The version the implementation reports.
#[derive(Debug)]
pub struct VersionInfo {
    pub implt: String,
    pub version: String,
    pub onebot_version: String,
}

/// The implementation's name and version, and the OneBot version it follows.
pub fn get_version() -> (r: VersionInfo)
    ensures
        r.implt@ == implementation_name(),
        r.version@ == implementation_version(),
        r.onebot_version@ == onebot_standard_version(),
{
    VersionInfo {
        implt: String::from_str("matrix-onebot"),
        version: String::from_str("0.1.0"),
        onebot_version: String::from_str("12"),
    }
}

/// The banner the program greets with.
pub open spec fn welcome_text() -> Seq<char> {
    "======\nMATRIX-ONEBOT v"@ + implementation_version()
        + "\n欢迎! 当前处于 v0.x.x 快速更新不稳定版本, 不会有预先的变动通知!\n======"@
}

/// The banner the program greets with: the implementation's version and a
/// note that it is an unstable release.
pub fn welcome_banner() -> (r: String)
    ensures
        r@ == welcome_text(),
{
    let mut text = String::from_str("======\nMATRIX-ONEBOT v");
    text.append("0.1.0");
    text.append("\n欢迎! 当前处于 v0.x.x 快速更新不稳定版本, 不会有预先的变动通知!\n======");
    text
}

/// The bot identity of the logged-in account.
pub fn selft(own_user_id: String) -> (r: SelfId)
    ensures
        r.platform@ == platform_name(),
        r.user_id == own_user_id,
{
    SelfId { platform: String::from_str("matrix"), user_id: own_user_id }
}

/// The bots the implementation runs: the logged-in account, or none before
/// the Matrix client is set up.
pub fn get_selfs(own_user_id: Option<String>) -> (r: Vec<SelfId>)
    ensures
        own_user_id is None ==> r@.len() == 0,
        own_user_id matches Some(id) ==> r@.len() == 1 && r@[0].platform@ == platform_name()
            && r@[0].user_id == id,
{
    let mut bots: Vec<SelfId> = Vec::new();
    match own_user_id {
        Some(id) => {
            bots.push(selft(id));
        },
        None => {},
    }
    bots
}

/// What the bridge tells of a Matrix user.
#[derive(Debug)]
pub struct UserInfo {
    pub user_id: String,
    pub user_name: String,
    pub user_displayname: String,
    pub user_remark: String,
}

/// The contents of a `UserInfo`.
pub struct UserInfoView {
    pub user_id: Seq<char>,
    pub user_name: Seq<char>,
    pub user_displayname: Seq<char>,
    pub user_remark: Seq<char>,
}

impl View for UserInfo {
    type V = UserInfoView;

    open spec fn view(&self) -> UserInfoView {
        UserInfoView {
            user_id: self.user_id@,
            user_name: self.user_name@,
            user_displayname: self.user_displayname@,
            user_remark: self.user_remark@,
        }
    }
}

/// A display name as the bridge reports it: empty when there is none.
pub open spec fn shown_name(display_name: Option<String>) -> Seq<char> {
    match display_name {
        Some(name) => name@,
        None => Seq::empty(),
    }
}

/// What the bridge tells of the user `user_id` with the display name
/// `display_name`.
pub open spec fn user_info_of(user_id: Seq<char>, display_name: Option<String>) -> UserInfoView {
    UserInfoView {
        user_id: user_id,
        user_name: user_name(user_id),
        user_displayname: shown_name(display_name),
        user_remark: Seq::empty(),
    }
}

/// The information on a user: the full id, the user name in it, the display
/// name (empty when there is none) and an empty remark. The id must hold an
/// `@`.
pub fn user_info(user_id: String, display_name: Option<String>) -> (r: UserInfo)
    requires
        user_id@.contains('@'),
    ensures
        r@ == user_info_of(user_id@, display_name),
        r.user_id == user_id,
        r.user_remark@ == Seq::<char>::empty(),
        display_name is None ==> r.user_displayname@ == Seq::<char>::empty(),
        display_name matches Some(d) ==> r.user_displayname == d,
{
    let name = user_name_of(user_id.as_str());
    let shown = match display_name {
        Some(d) => d,
        None => String::new(),
    };
    UserInfo { user_id, user_name: name, user_displayname: shown, user_remark: String::new() }
}

/// The check `get_user_info` makes before looking the user up: the id must
/// be one the Matrix library accepts, else the action fails with an
/// unsupported parameter that carries the library's error. The id must hold
/// an `@`.
pub fn check_user_info_target(user_id: &str) -> (r: Result<(), ActionError>)
    requires
        user_id@.contains('@'),
    ensures
        r is Ok <==> user_id_valid(user_id@),
        r matches Err(e) ==> e matches ActionError::UnsupportedParam(msg) && user_id_parse_error(
            user_id@,
        ) == Some(msg@),
{
    match check_user_id(user_id) {
        Ok(_) => Ok(()),
        Err(msg) => Err(ActionError::UnsupportedParam(msg)),
    }
}

/// A member of a joined room.
#[derive(Debug)]
pub struct RoomMember {
    pub user_id: String,
    pub display_name: Option<String>,
}

/// A joined room, as `get_friend_list` looks at it. `is_direct` is `None`
/// when it could not be found out whether the room is direct; `members`
/// are its joined members (they are not needed, and may be left empty, for
/// a room that `may_hold_friend` rules out).
#[derive(Debug)]
pub struct JoinedRoom {
    pub is_direct: Option<bool>,
    pub members: Vec<RoomMember>,
}

/// A room may hold a friend unless it is known not to be direct.
pub open spec fn room_may_hold_friend(is_direct: Option<bool>) -> bool {
    is_direct != Some(false)
}

/// Whether a joined room may hold a friend: unless it is known not to be
/// direct.
pub fn may_hold_friend(is_direct: Option<bool>) -> (r: bool)
    ensures
        r == room_may_hold_friend(is_direct),
{
    match is_direct {
        Some(false) => false,
        _ => true,
    }
}

/// The members of `members` other than `own_user_id`, as friends.
pub open spec fn members_as_friends(members: Seq<RoomMember>, own_user_id: Seq<char>) -> Seq<
    UserInfoView,
>
    decreases members.len(),
{
    if members.len() == 0 {
        Seq::empty()
    } else {
        let rest = members_as_friends(members.drop_last(), own_user_id);
        if members.last().user_id@ == own_user_id {
            rest
        } else {
            rest.push(user_info_of(members.last().user_id@, members.last().display_name))
        }
    }
}

/// Whether a room counts for the friend list: it may hold a friend and has
/// exactly two members.
pub open spec fn counts_for_friends(room: JoinedRoom) -> bool {
    room_may_hold_friend(room.is_direct) && room.members@.len() == 2
}

/// The friends a joined room gives.
pub open spec fn room_friends(room: JoinedRoom, own_user_id: Seq<char>) -> Seq<UserInfoView> {
    if counts_for_friends(room) {
        members_as_friends(room.members@, own_user_id)
    } else {
        Seq::empty()
    }
}

/// The friend list: the other member of each room of two members that may
/// be direct, in the order of the rooms.
pub open spec fn friend_list(rooms: Seq<JoinedRoom>, own_user_id: Seq<char>) -> Seq<UserInfoView>
    decreases rooms.len(),
{
    if rooms.len() == 0 {
        Seq::empty()
    } else {
        friend_list(rooms.drop_last(), own_user_id) + room_friends(rooms.last(), own_user_id)
    }
}

/// The ids of the members that become friends all hold an `@`.
pub open spec fn friend_ids_well_formed(rooms: Seq<JoinedRoom>, own_user_id: Seq<char>) -> bool {
    forall|i: int, j: int|
        0 <= i < rooms.len() && counts_for_friends(rooms[i]) && 0 <= j < rooms[i].members@.len()
            && rooms[i].members@[j].user_id@ != own_user_id ==> (#[trigger] rooms[i].members@[j]).user_id@.contains(
            '@',
        )
}

/// The friend list of the account `own_user_id` among its joined rooms.
pub fn get_friend_list(rooms: &Vec<JoinedRoom>, own_user_id: &str) -> (r: Vec<UserInfo>)
    requires
        friend_ids_well_formed(rooms@, own_user_id@),
    ensures
        r@.map_values(|u: UserInfo| u@) == friend_list(rooms@, own_user_id@),
        forall|k: int|
            0 <= k < r@.len() ==> exists|i: int, j: int|
                0 <= i < rooms@.len() && rooms@[i].is_direct != Some(false)
                    && rooms@[i].members@.len() == 2 && 0 <= j < 2 && (#[trigger] r@[k]).user_id@
                    == rooms@[i].members@[j].user_id@ && r@[k].user_id@ != own_user_id@
                    && r@[k].user_displayname@ == shown_name(rooms@[i].members@[j].display_name)
                    && r@[k].user_remark@ == Seq::<char>::empty(),
{
    let mut friends: Vec<UserInfo> = Vec::new();
    let n = rooms.len();
    let mut i: usize = 0;
    proof {
        assert(rooms@.take(0) =~= Seq::<JoinedRoom>::empty());
        assert(friends@.map_values(|u: UserInfo| u@) =~= Seq::<UserInfoView>::empty());
    }
    while i < n
        invariant
            n == rooms@.len(),
            i <= n,
            friend_ids_well_formed(rooms@, own_user_id@),
            friends@.map_values(|u: UserInfo| u@) == friend_list(rooms@.take(i as int), own_user_id@),
        decreases n - i,
    {
        let room = &rooms[i];
        let ghost before = friends@.map_values(|u: UserInfo| u@);
        if may_hold_friend(room.is_direct) && room.members.len() == 2 {
            let m = room.members.len();
            let mut j: usize = 0;
            proof {
                assert(room.members@.take(0) =~= Seq::<RoomMember>::empty());
                assert(before + Seq::<UserInfoView>::empty() =~= before);
            }
            while j < m
                invariant
                    n == rooms@.len(),
                    i < n,
                    room == rooms@[i as int],
                    counts_for_friends(*room),
                    m == room.members@.len(),
                    j <= m,
                    friend_ids_well_formed(rooms@, own_user_id@),
                    friends@.map_values(|u: UserInfo| u@) == before + members_as_friends(
                        room.members@.take(j as int),
                        own_user_id@,
                    ),
                decreases m - j,
            {
                let member = &room.members[j];
                let ghost prev = friends@.map_values(|u: UserInfo| u@);
                assert(room.members@.take(j + 1).drop_last() =~= room.members@.take(j as int));
                assert(room.members@.take(j + 1).last() == room.members@[j as int]);
                if !same_text(member.user_id.as_str(), own_user_id) {
                    assert(rooms@[i as int].members@[j as int].user_id@.contains('@'));
                    let info = user_info(member.user_id.clone(), member.display_name.clone());
                    friends.push(info);
                    assert(friends@.map_values(|u: UserInfo| u@) =~= prev.push(info@));
                    assert(info@ == user_info_of(member.user_id@, member.display_name)) by {
                        assert(info@.user_displayname == shown_name(member.display_name));
                    }
                    assert(before + members_as_friends(room.members@.take(j + 1), own_user_id@)
                        =~= (before + members_as_friends(room.members@.take(j as int), own_user_id@)).push(
                        info@,
                    ));
                } else {
                    assert(friends@.map_values(|u: UserInfo| u@) == prev);
                }
                j = j + 1;
            }
            assert(room.members@.take(m as int) =~= room.members@);
        } else {
            assert(room_friends(*room, own_user_id@) =~= Seq::<UserInfoView>::empty());
            assert(before + Seq::<UserInfoView>::empty() =~= before);
        }
        proof {
            assert(rooms@.take(i + 1).drop_last() =~= rooms@.take(i as int));
            assert(rooms@.take(i + 1).last() == rooms@[i as int]);
        }
        i = i + 1;
    }
    assert(rooms@.take(n as int) =~= rooms@);
    proof {
        lemma_friend_comes_from_direct_pair(rooms@, own_user_id@);
        let fl = friend_list(rooms@, own_user_id@);
        assert forall|k: int| 0 <= k < friends@.len() implies exists|i: int, j: int|
            0 <= i < rooms@.len() && rooms@[i].is_direct != Some(false) && rooms@[i].members@.len()
                == 2 && 0 <= j < 2 && (#[trigger] friends@[k]).user_id@
                == rooms@[i].members@[j].user_id@ && friends@[k].user_id@ != own_user_id@
                && friends@[k].user_displayname@ == shown_name(rooms@[i].members@[j].display_name)
                && friends@[k].user_remark@ == Seq::<char>::empty() by {
            assert(friends@.map_values(|u: UserInfo| u@)[k] == friends@[k]@);
            assert(fl[k] == friends@[k]@);
            let (i, j) = choose|i: int, j: int|
                0 <= i < rooms@.len() && rooms@[i].is_direct != Some(false) && rooms@[i].members@.len()
                    == 2 && 0 <= j < 2 && #[trigger] fl[k].user_id == rooms@[i].members@[j].user_id@
                    && fl[k].user_id != own_user_id@ && fl[k].user_displayname == shown_name(
                    rooms@[i].members@[j].display_name,
                ) && fl[k].user_remark == Seq::<char>::empty();
        }
    }
    friends
}

/// No one is their own friend: no entry of the friend list is the account
/// itself, and each entry's user name is the one in its id.
pub proof fn lemma_friend_list_excludes_self(rooms: Seq<JoinedRoom>, own_user_id: Seq<char>)
    ensures
        forall|k: int|
            0 <= k < friend_list(rooms, own_user_id).len() ==> (#[trigger] friend_list(
                rooms,
                own_user_id,
            )[k]).user_id != own_user_id && friend_list(rooms, own_user_id)[k].user_name
                == user_name(friend_list(rooms, own_user_id)[k].user_id),
    decreases rooms.len(),
{
    if rooms.len() > 0 {
        lemma_friend_list_excludes_self(rooms.drop_last(), own_user_id);
        lemma_members_as_friends_exclude_self(rooms.last().members@, own_user_id);
        let a = friend_list(rooms.drop_last(), own_user_id);
        let b = room_friends(rooms.last(), own_user_id);
        assert forall|k: int| 0 <= k < friend_list(rooms, own_user_id).len() implies (
        #[trigger] friend_list(rooms, own_user_id)[k]).user_id != own_user_id && friend_list(
            rooms,
            own_user_id,
        )[k].user_name == user_name(friend_list(rooms, own_user_id)[k].user_id) by {
            if k < a.len() {
                assert(friend_list(rooms, own_user_id)[k] == a[k]);
            } else {
                assert(friend_list(rooms, own_user_id)[k] == b[k - a.len()]);
            }
        }
    }
}

/// A room known not to be direct, or one without exactly two members, gives
/// no friend: removing it from the rooms leaves the friend list as it is.
pub proof fn lemma_room_without_friend_changes_nothing(
    rooms: Seq<JoinedRoom>,
    own_user_id: Seq<char>,
    i: int,
)
    requires
        0 <= i < rooms.len(),
        rooms[i].is_direct == Some(false) || rooms[i].members@.len() != 2,
    ensures
        friend_list(rooms, own_user_id) == friend_list(rooms.remove(i), own_user_id),
    decreases rooms.len(),
{
    let last = rooms.len() - 1;
    if i == last {
        assert(rooms.remove(i) =~= rooms.drop_last());
        assert(room_friends(rooms.last(), own_user_id) =~= Seq::<UserInfoView>::empty());
        assert(friend_list(rooms.drop_last(), own_user_id) + Seq::<UserInfoView>::empty()
            =~= friend_list(rooms.drop_last(), own_user_id));
    } else {
        lemma_room_without_friend_changes_nothing(rooms.drop_last(), own_user_id, i);
        assert(rooms.remove(i).drop_last() =~= rooms.drop_last().remove(i));
        assert(rooms.remove(i).last() == rooms.last());
    }
}

/// Every friend is the other member of a joined room that has exactly two
/// members and is not known to be non-direct, with that member's display
/// name (or none) and an empty remark.
pub proof fn lemma_friend_comes_from_direct_pair(rooms: Seq<JoinedRoom>, own_user_id: Seq<char>)
    ensures
        forall|k: int|
            0 <= k < friend_list(rooms, own_user_id).len() ==> exists|i: int, j: int|
                0 <= i < rooms.len() && rooms[i].is_direct != Some(false) && rooms[i].members@.len()
                    == 2 && 0 <= j < 2 && #[trigger] friend_list(rooms, own_user_id)[k].user_id
                    == rooms[i].members@[j].user_id@ && friend_list(rooms, own_user_id)[k].user_id
                    != own_user_id && friend_list(rooms, own_user_id)[k].user_displayname
                    == shown_name(rooms[i].members@[j].display_name) && friend_list(
                    rooms,
                    own_user_id,
                )[k].user_remark == Seq::<char>::empty(),
    decreases rooms.len(),
{
    if rooms.len() > 0 {
        let init = rooms.drop_last();
        lemma_friend_comes_from_direct_pair(init, own_user_id);
        let a = friend_list(init, own_user_id);
        let b = room_friends(rooms.last(), own_user_id);
        let all = friend_list(rooms, own_user_id);
        let n = rooms.len() - 1;
        lemma_members_as_friends_origin(rooms.last().members@, own_user_id);
        assert forall|k: int| 0 <= k < all.len() implies exists|i: int, j: int|
            0 <= i < rooms.len() && rooms[i].is_direct != Some(false) && rooms[i].members@.len() == 2
                && 0 <= j < 2 && #[trigger] all[k].user_id == rooms[i].members@[j].user_id@
                && all[k].user_id != own_user_id && all[k].user_displayname == shown_name(
                rooms[i].members@[j].display_name,
            ) && all[k].user_remark == Seq::<char>::empty() by {
            if k < a.len() {
                assert(all[k] == a[k]);
                let (i, j) = choose|i: int, j: int|
                    0 <= i < init.len() && init[i].is_direct != Some(false) && init[i].members@.len()
                        == 2 && 0 <= j < 2 && #[trigger] a[k].user_id == init[i].members@[j].user_id@
                        && a[k].user_id != own_user_id && a[k].user_displayname == shown_name(
                        init[i].members@[j].display_name,
                    ) && a[k].user_remark == Seq::<char>::empty();
                assert(init[i] == rooms[i]);
            } else {
                assert(all[k] == b[k - a.len()]);
                assert(counts_for_friends(rooms.last()));
                let m = rooms.last().members@;
                let j = choose|j: int|
                    0 <= j < m.len() && #[trigger] members_as_friends(m, own_user_id)[k - a.len()].user_id
                        == m[j].user_id@ && members_as_friends(m, own_user_id)[k - a.len()].user_displayname
                        == shown_name(m[j].display_name);
                assert(rooms[n] == rooms.last());
                assert(all[k].user_id == rooms[n].members@[j].user_id@);
            }
        }
    }
}

/// Each friend made of a room's members is one of those members, with its
/// display name (or none) and an empty remark, and is not the account.
pub proof fn lemma_members_as_friends_origin(members: Seq<RoomMember>, own_user_id: Seq<char>)
    ensures
        forall|k: int|
            0 <= k < members_as_friends(members, own_user_id).len() ==> exists|j: int|
                0 <= j < members.len() && #[trigger] members_as_friends(members, own_user_id)[k].user_id
                    == members[j].user_id@ && members_as_friends(members, own_user_id)[k].user_displayname
                    == shown_name(members[j].display_name),
        forall|k: int|
            0 <= k < members_as_friends(members, own_user_id).len() ==> (
            #[trigger] members_as_friends(members, own_user_id)[k]).user_id != own_user_id
                && members_as_friends(members, own_user_id)[k].user_remark == Seq::<char>::empty(),
        members_as_friends(members, own_user_id).len() <= members.len(),
    decreases members.len(),
{
    if members.len() > 0 {
        let init = members.drop_last();
        lemma_members_as_friends_origin(init, own_user_id);
        let rest = members_as_friends(init, own_user_id);
        let all = members_as_friends(members, own_user_id);
        assert forall|k: int| 0 <= k < all.len() implies exists|j: int|
            0 <= j < members.len() && #[trigger] all[k].user_id == members[j].user_id@
                && all[k].user_displayname == shown_name(members[j].display_name) by {
            if k < rest.len() {
                assert(all[k] == rest[k]);
                let j = choose|j: int|
                    0 <= j < init.len() && #[trigger] rest[k].user_id == init[j].user_id@
                        && rest[k].user_displayname == shown_name(init[j].display_name);
                assert(init[j] == members[j]);
            } else {
                assert(members[members.len() - 1] == members.last());
            }
        }
        assert forall|k: int| 0 <= k < all.len() implies (#[trigger] all[k]).user_id != own_user_id
            && all[k].user_remark == Seq::<char>::empty() by {
            if k < rest.len() {
                assert(all[k] == rest[k]);
            }
        }
    }
}

/// The information the bridge gives on a user never carries a remark; its
/// display name is the user's, or empty when there is none; its id is the
/// one asked about.
pub proof fn lemma_user_info_fields(user_id: Seq<char>, display_name: Option<String>)
    ensures
        user_info_of(user_id, display_name).user_remark == Seq::<char>::empty(),
        user_info_of(user_id, display_name).user_id == user_id,
        display_name is None ==> user_info_of(user_id, display_name).user_displayname
            == Seq::<char>::empty(),
        display_name matches Some(d) ==> user_info_of(user_id, display_name).user_displayname == d@,
{
}

/// Each friend made of a room's members is another member than the account.
pub proof fn lemma_members_as_friends_exclude_self(members: Seq<RoomMember>, own_user_id: Seq<char>)
    ensures
        forall|k: int|
            0 <= k < members_as_friends(members, own_user_id).len() ==> (
            #[trigger] members_as_friends(members, own_user_id)[k]).user_id != own_user_id
                && members_as_friends(members, own_user_id)[k].user_name == user_name(
                members_as_friends(members, own_user_id)[k].user_id,
            ),
    decreases members.len(),
{
    if members.len() > 0 {
        lemma_members_as_friends_exclude_self(members.drop_last(), own_user_id);
        let rest = members_as_friends(members.drop_last(), own_user_id);
        let all = members_as_friends(members, own_user_id);
        assert forall|k: int| 0 <= k < all.len() implies (#[trigger] all[k]).user_id != own_user_id
            && all[k].user_name == user_name(all[k].user_id) by {
            if k < rest.len() {
                assert(all[k] == rest[k]);
            }
        }
    }
}

/// The target of a `send_message` action once its parameters are checked.
#[derive(Debug)]
pub enum SendPlan {
    /// Send into the joined room with this id.
    Group { group_id: String },
    /// Send to this user in a direct room.
    Private { user_id: String },
}

/// Whether the error is a bad parameter with the message `msg`.
pub open spec fn is_bad_param(e: ActionError, msg: Seq<char>) -> bool {
    e matches ActionError::BadParam(m) && m@ == msg
}

/// Whether `r` failed with a bad parameter with the message `msg`.
pub open spec fn fails_with_bad_param<T>(r: Result<T, ActionError>, msg: Seq<char>) -> bool {
    r matches Err(e) && is_bad_param(e, msg)
}

/// Whether `r` failed with the unsupported parameter `value`.
pub open spec fn fails_with_unsupported<T>(r: Result<T, ActionError>, value: Seq<char>) -> bool {
    r matches Err(e) && e matches ActionError::UnsupportedParam(v) && v@ == value
}

/// The checks a `send_message` action makes on its detail type and target
/// before looking for a room. A group message needs a group id; a private
/// message needs a user id that the Matrix library accepts; other detail
/// types are unsupported. Temporary group messages are not handled.
pub fn plan_send_message(detail_type: &str, group_id: Option<String>, user_id: Option<String>) -> (r:
    Result<SendPlan, ActionError>)
    requires
        detail_type@ != "group_temp"@,
    ensures
        detail_type@ == "group"@ ==> match group_id {
            None => fails_with_bad_param(r, "group_id is null"@),
            Some(g) => r == Ok::<SendPlan, ActionError>(SendPlan::Group { group_id: g }),
        },
        detail_type@ == "private"@ ==> match user_id {
            None => fails_with_bad_param(r, "user_id is null"@),
            Some(u) => if user_id_valid(u@) {
                r == Ok::<SendPlan, ActionError>(SendPlan::Private { user_id: u })
            } else {
                fails_with_bad_param(r, "user_id cannot format"@)
            },
        },
        detail_type@ != "group"@ && detail_type@ != "private"@ ==> fails_with_unsupported(
            r,
            detail_type@,
        ),
{
    proof {
        reveal_strlit("group");
        reveal_strlit("private");
        assert("group"@.len() != "private"@.len());
    }
    if same_text(detail_type, "group") {
        match group_id {
            None => Err(ActionError::BadParam(String::from_str("group_id is null"))),
            Some(g) => Ok(SendPlan::Group { group_id: g }),
        }
    } else if same_text(detail_type, "private") {
        match user_id {
            None => Err(ActionError::BadParam(String::from_str("user_id is null"))),
            Some(u) => match check_user_id(u.as_str()) {
                Ok(_) => Ok(SendPlan::Private { user_id: u }),
                Err(_) => Err(ActionError::BadParam(String::from_str("user_id cannot format"))),
            },
        }
    } else {
        Err(ActionError::UnsupportedParam(detail_type.to_owned()))
    }
}

/// The first joined room whose id is `group_id`.
pub fn find_group_room(room_ids: &Vec<String>, group_id: &str) -> (r: Option<usize>)
    ensures
        r matches Some(i) ==> i < room_ids@.len() && room_ids@[i as int]@ == group_id@ && forall|
            j: int,
        |
            0 <= j < i ==> #[trigger] room_ids@[j]@ != group_id@,
        r is None ==> forall|j: int| 0 <= j < room_ids@.len() ==> #[trigger] room_ids@[j]@ != group_id@,
{
    let n = room_ids.len();
    let mut i: usize = 0;
    while i < n
        invariant
            n == room_ids@.len(),
            i <= n,
            forall|j: int| 0 <= j < i ==> #[trigger] room_ids@[j]@ != group_id@,
        decreases n - i,
    {
        if same_text(room_ids[i].as_str(), group_id) {
            return Some(i);
        }
        i = i + 1;
    }
    None
}

/// Whether a joined room is a direct room with `user_id`: its members could
/// be listed, there are two, and one of them is `user_id`.
pub open spec fn is_private_room_with(members: Option<Vec<String>>, user_id: Seq<char>) -> bool {
    match members {
        Some(ids) => ids@.len() == 2 && exists|k: int| 0 <= k < ids@.len() && #[trigger] ids@[k]@ == user_id,
        None => false,
    }
}

fn holds_user(ids: &Vec<String>, user_id: &str) -> (r: bool)
    ensures
        r == exists|k: int| 0 <= k < ids@.len() && #[trigger] ids@[k]@ == user_id@,
{
    let n = ids.len();
    let mut k: usize = 0;
    while k < n
        invariant
            n == ids@.len(),
            k <= n,
            forall|j: int| 0 <= j < k ==> #[trigger] ids@[j]@ != user_id@,
        decreases n - k,
    {
        if same_text(ids[k].as_str(), user_id) {
            assert(ids@[k as int]@ == user_id@);
            return true;
        }
        k = k + 1;
    }
    false
}

/// The last joined room that is a direct room with `user_id`; `rooms` holds
/// the joined members' ids of each joined room, `None` where they could not
/// be listed.
pub fn find_private_room(rooms: &Vec<Option<Vec<String>>>, user_id: &str) -> (r: Option<usize>)
    ensures
        r matches Some(i) ==> i < rooms@.len() && is_private_room_with(rooms@[i as int], user_id@)
            && forall|j: int| i < j < rooms@.len() ==> !is_private_room_with(#[trigger] rooms@[j], user_id@),
        r is None ==> forall|j: int| 0 <= j < rooms@.len() ==> !is_private_room_with(#[trigger] rooms@[j], user_id@),
        r matches Some(i) ==> rooms@[i as int] matches Some(ids) && ids@.len() == 2 && exists|k: int|
            0 <= k < ids@.len() && #[trigger] ids@[k]@ == user_id@,
{
    let n = rooms.len();
    let mut found: Option<usize> = None;
    let mut i: usize = 0;
    while i < n
        invariant
            n == rooms@.len(),
            i <= n,
            found matches Some(f) ==> f < i && is_private_room_with(rooms@[f as int], user_id@)
                && forall|j: int| f < j < i ==> !is_private_room_with(#[trigger] rooms@[j], user_id@),
            found is None ==> forall|j: int| 0 <= j < i ==> !is_private_room_with(#[trigger] rooms@[j], user_id@),
        decreases n - i,
    {
        match &rooms[i] {
            Some(ids) => {
                if ids.len() == 2 && holds_user(ids, user_id) {
                    found = Some(i);
                }
            },
            None => {},
        }
        i = i + 1;
    }
    proof {
        if found is Some {
            lemma_private_room_has_two_members(rooms@[found->0 as int], user_id@);
        }
    }
    found
}

/// A room chosen as the direct room with a user has exactly two joined
/// members, the user among them; a room whose members could not be listed is
/// never chosen.
pub proof fn lemma_private_room_has_two_members(members: Option<Vec<String>>, user_id: Seq<char>)
    requires
        is_private_room_with(members, user_id),
    ensures
        members matches Some(ids) && ids@.len() == 2 && exists|k: int|
            0 <= k < ids@.len() && #[trigger] ids@[k]@ == user_id,
{
}

/// A room of more or fewer than two members is never a direct room with
/// anyone.
pub proof fn lemma_crowded_room_is_not_private(ids: Vec<String>, user_id: Seq<char>)
    requires
        ids@.len() != 2,
    ensures
        !is_private_room_with(Some(ids), user_id),
{
}

/// The `text` entry of a message segment's data.
#[derive(Debug)]
pub enum SegmentValue {
    Str(String),
    Other,
}

/// A message segment of an action, with what the bridge reads of it: the
/// `text` entry of its data, if there is one.
#[derive(Debug)]
pub struct Segment {
    pub text: Option<SegmentValue>,
}

/// Messages whose first segment has a `text` entry that is not a string
/// are not handled.
pub open spec fn text_readable(segments: Seq<Segment>) -> bool {
    segments.len() > 0 ==> match segments[0].text {
        Some(SegmentValue::Other) => false,
        _ => true,
    }
}

/// Whether `first_text` handles the segments: it does unless the first
/// segment's `text` entry is not a string.
pub fn is_text_readable(segments: &Vec<Segment>) -> (r: bool)
    ensures
        r == text_readable(segments@),
{
    if segments.len() == 0 {
        return true;
    }
    match &segments[0].text {
        Some(SegmentValue::Other) => false,
        _ => true,
    }
}

/// The text to send: the `text` entry of the first segment.
pub fn first_text(segments: &Vec<Segment>) -> (r: Result<String, ActionError>)
    requires
        text_readable(segments@),
    ensures
        segments@.len() == 0 ==> fails_with_bad_param(r, "message is null: MsgSegment"@),
        segments@.len() > 0 ==> match segments@[0].text {
            None => fails_with_bad_param(r, "message is null: text"@),
            Some(SegmentValue::Str(t)) => r matches Ok(s) && s@ == t@,
            Some(SegmentValue::Other) => false,
        },
{
    if segments.len() == 0 {
        return Err(ActionError::BadParam(String::from_str("message is null: MsgSegment")));
    }
    match &segments[0].text {
        None => Err(ActionError::BadParam(String::from_str("message is null: text"))),
        Some(SegmentValue::Str(t)) => Ok(t.clone()),
        Some(SegmentValue::Other) => {
            assert(false);
            Err(ActionError::BadParam(String::new()))
        },
    }
}

} // verus!
