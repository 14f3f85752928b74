//! Matrix events as the bridge sees them, the rows it records for them, and
//! the OneBot events it builds from them.

use vstd::prelude::*;
use vstd::string::*;
use crate::table::Event;

verus! {

/// The content of a Matrix room message, by message type, with what the
/// bridge reads of it.
#[derive(Debug)]
pub enum MessageContent {
    Audio,
    Emote,
    File,
    /// An image: the `mxc` address of its file, or `None` when the file is
    /// encrypted.
    Image { plain_url: Option<String> },
    Location,
    Notice,
    ServerNotice,
    Text { body: String },
    Video,
    VerificationRequest,
    /// A message type that the Matrix library does not know.
    Custom,
    /// A message type that the bridge does not know.
    Unknown,
}

/// The name of a message type, as the message table records it.
pub open spec fn message_type_label(content: MessageContent) -> Seq<char> {
    match content {
        MessageContent::Audio => "Audio"@,
        MessageContent::Emote => "Emote"@,
        MessageContent::File => "File"@,
        MessageContent::Image { .. } => "Image"@,
        MessageContent::Location => "Location"@,
        MessageContent::Notice => "Notice"@,
        MessageContent::ServerNotice => "ServerNotice"@,
        MessageContent::Text { .. } => "Text"@,
        MessageContent::Video => "Video"@,
        MessageContent::VerificationRequest => "VerificationRequest"@,
        MessageContent::Custom => "_Custom"@,
        MessageContent::Unknown => "_Unknown"@,
    }
}

/// The body that the message table records: the text of a text message,
/// else nothing.
pub open spec fn recorded_body(content: MessageContent) -> Seq<char> {
    match content {
        MessageContent::Text { body } => body@,
        _ => Seq::empty(),
    }
}

/// What the bridge answers for message types it does not render yet.
pub open spec fn not_rendered_text() -> Seq<char> {
    "暂未实现"@
}

/// The readable form of a message: the text of a text message, a marker
/// with the address of an unencrypted image, a marker for an encrypted one.
pub open spec fn alt_text(content: MessageContent) -> Seq<char> {
    match content {
        MessageContent::Text { body } => body@,
        MessageContent::Image { plain_url } => match plain_url {
            Some(url) => "[Image: "@ + url@ + "]"@,
            None => "[Image: Encrypted]"@,
        },
        _ => not_rendered_text(),
    }
}

/// For a text message, the body the message table records is the text the
/// application is sent; for any other message the table records no body.
pub proof fn lemma_recorded_body_matches_alt_text(content: MessageContent)
    ensures
        content is Text ==> recorded_body(content) == alt_text(content),
        !(content is Text) ==> recorded_body(content) == Seq::<char>::empty(),
{
}

/// Only images render with the `[Image: ...]` marker: an image with a plain
/// file gives the marker around its address, an encrypted one the marker with
/// `Encrypted`; a text message gives its text; every other message type
/// gives the "not rendered yet" text.
pub proof fn lemma_alt_text_by_type(content: MessageContent)
    ensures
        !(content is Text) && !(content is Image) ==> alt_text(content) == "暂未实现"@,
        content matches MessageContent::Text { body } ==> alt_text(content) == body@,
        content matches MessageContent::Image { plain_url } ==> alt_text(content).len() > 8
            && alt_text(content).take(8) == "[Image: "@,
        content matches MessageContent::Image { plain_url } ==> (plain_url matches Some(url)
            ==> alt_text(content) == "[Image: "@ + url@ + "]"@),
        content matches MessageContent::Image { plain_url } ==> (plain_url is None ==> alt_text(
            content,
        ) == "[Image: Encrypted]"@),
{
    reveal_strlit("[Image: ");
    reveal_strlit("]");
    reveal_strlit("[Image: Encrypted]");
    match content {
        MessageContent::Image { plain_url } => match plain_url {
            Some(url) => {
                assert(("[Image: "@ + url@ + "]"@).take(8) =~= "[Image: "@);
            },
            None => {
                assert("[Image: Encrypted]"@.take(8) =~= "[Image: "@);
            },
        },
        _ => {},
    }
}

/// Whether two contents are of the same message type.
pub open spec fn same_message_type(a: MessageContent, b: MessageContent) -> bool {
    &&& (a is Audio <==> b is Audio)
    &&& (a is Emote <==> b is Emote)
    &&& (a is File <==> b is File)
    &&& (a is Image <==> b is Image)
    &&& (a is Location <==> b is Location)
    &&& (a is Notice <==> b is Notice)
    &&& (a is ServerNotice <==> b is ServerNotice)
    &&& (a is Text <==> b is Text)
    &&& (a is Video <==> b is Video)
    &&& (a is VerificationRequest <==> b is VerificationRequest)
    &&& (a is Custom <==> b is Custom)
    &&& (a is Unknown <==> b is Unknown)
}

/// The message table tells message types apart: two contents get the same
/// type name only when they are of the same type. The name of a text
/// message is `Text`, and the names of the two kinds of unknown type start
/// with `_`, which no known type's name does.
pub proof fn lemma_message_type_label_injective(a: MessageContent, b: MessageContent)
    ensures
        message_type_label(a) == message_type_label(b) ==> same_message_type(a, b),
        a is Text ==> message_type_label(a) == "Text"@,
        message_type_label(a).len() > 0,
        (message_type_label(a)[0] == '_') <==> (a is Custom || a is Unknown),
{
    reveal_strlit("Audio");
    reveal_strlit("Emote");
    reveal_strlit("File");
    reveal_strlit("Image");
    reveal_strlit("Location");
    reveal_strlit("Notice");
    reveal_strlit("ServerNotice");
    reveal_strlit("Text");
    reveal_strlit("Video");
    reveal_strlit("VerificationRequest");
    reveal_strlit("_Custom");
    reveal_strlit("_Unknown");
    let la = message_type_label(a);
    let lb = message_type_label(b);
    if la == lb {
        assert(la.len() == lb.len() && la[0] == lb[0]);
        if la.len() == 5 {
            assert(la[0] == lb[0]);
        }
    }
}

/// The name of the message type of `content`.
pub fn message_type_name(content: &MessageContent) -> (r: &'static str)
    ensures
        r@ == message_type_label(*content),
{
    match content {
        MessageContent::Audio => "Audio",
        MessageContent::Emote => "Emote",
        MessageContent::File => "File",
        MessageContent::Image { .. } => "Image",
        MessageContent::Location => "Location",
        MessageContent::Notice => "Notice",
        MessageContent::ServerNotice => "ServerNotice",
        MessageContent::Text { .. } => "Text",
        MessageContent::Video => "Video",
        MessageContent::VerificationRequest => "VerificationRequest",
        MessageContent::Custom => "_Custom",
        MessageContent::Unknown => "_Unknown",
    }
}

/// The readable form of a message.
pub fn alt_message(content: &MessageContent) -> (r: String)
    ensures
        r@ == alt_text(*content),
        !(*content is Text) && !(*content is Image) ==> r@ == "暂未实现"@,
        *content matches MessageContent::Text { body } ==> r@ == body@,
        *content matches MessageContent::Image { plain_url } ==> r@.len() > 8 && r@.take(8) == "[Image: "@,
{
    proof {
        lemma_alt_text_by_type(*content);
    }
    match content {
        MessageContent::Text { body } => body.clone(),
        MessageContent::Image { plain_url } => match plain_url {
            Some(url) => {
                let mut s = String::from_str("[Image: ");
                s.append(url.as_str());
                s.append("]");
                s
            },
            None => String::from_str("[Image: Encrypted]"),
        },
        _ => String::from_str("暂未实现"),
    }
}

/// A server timestamp in milliseconds as the tables store it: the same
/// number, or 0 when it does not fit.
pub fn server_timestamp(millis: u64) -> (r: i64)
    ensures
        millis <= i64::MAX ==> r == millis,
        millis > i64::MAX ==> r == 0,
{
    if millis <= 9223372036854775807u64 {
        millis as i64
    } else {
        0
    }
}

/// Which handler saw an event.
#[derive(Clone, Copy, Debug, PartialEq, Eq)]
pub enum EventKind {
    Message,
    Member,
}

/// The name the event table records for a kind of event.
pub open spec fn event_kind_label(kind: EventKind) -> Seq<char> {
    match kind {
        EventKind::Message => "message"@,
        EventKind::Member => "member"@,
    }
}

/// The event table tells the two kinds of event apart.
pub proof fn lemma_event_kind_labels_differ()
    ensures
        event_kind_label(EventKind::Message) != event_kind_label(EventKind::Member),
        event_kind_label(EventKind::Message).len() > 0,
        event_kind_label(EventKind::Member).len() > 0,
{
    reveal_strlit("message");
    reveal_strlit("member");
    assert(event_kind_label(EventKind::Message)[2] != event_kind_label(EventKind::Member)[2]);
}

/// The event table's row for an event.
pub fn event_record(event_id: String, kind: EventKind, timestamp: i64) -> (r: Event)
    ensures
        r.event_id == event_id,
        r.ty@ == event_kind_label(kind),
        r.timestamp == timestamp,
{
    let ty = match kind {
        EventKind::Message => String::from_str("message"),
        EventKind::Member => String::from_str("member"),
    };
    Event { event_id, ty, timestamp }
}

/// A room message as the message table records it.
#[derive(Debug)]
pub struct MessageRecord {
    pub event_id: String,
    pub ty: String,
    pub body: String,
    pub sender: String,
    pub timestamp: i64,
    pub message_event_debug_string: String,
}

/// The message table's row for a room message.
pub fn message_record(
    event_id: String,
    content: &MessageContent,
    sender: String,
    timestamp: i64,
    debug_text: String,
) -> (r: MessageRecord)
    ensures
        r.event_id == event_id,
        r.ty@ == message_type_label(*content),
        r.body@ == recorded_body(*content),
        *content matches MessageContent::Text { body } ==> r.body@ == body@,
        !(*content is Text) ==> r.body@.len() == 0,
        r.sender == sender,
        r.timestamp == timestamp,
        r.message_event_debug_string == debug_text,
{
    let ty = message_type_name(content).to_owned();
    let body = match content {
        MessageContent::Text { body } => body.clone(),
        _ => String::new(),
    };
    MessageRecord { event_id, ty, body, sender, timestamp, message_event_debug_string: debug_text }
}

/// The bot identity that OneBot events carry.
#[derive(Debug)]
pub struct SelfId {
    pub platform: String,
    pub user_id: String,
}

/// The platform name of the bridge's bots.
pub open spec fn platform_name() -> Seq<char> {
    "matrix"@
}

/// The user id that events built from Matrix events carry for the bot.
pub open spec fn placeholder_self_user_id() -> Seq<char> {
    "等实现config之后从config里读，不想传client参"@
}

/// The bot identity that events built from Matrix events carry.
pub fn get_self() -> (r: SelfId)
    ensures
        r.platform@ == platform_name(),
        r.user_id@ == placeholder_self_user_id(),
{
    SelfId {
        platform: String::from_str("matrix"),
        user_id: String::from_str("等实现config之后从config里读，不想传client参"),
    }
}

/// What a notice event reports.
#[derive(Debug)]
pub enum NoticeDetail {
    GroupMemberIncrease { group_id: String, user_id: String, operator_id: String },
    GroupMemberDecrease { group_id: String, user_id: String, operator_id: String },
    FriendIncrease { user_id: String },
    FriendDecrease { user_id: String },
}

/// A OneBot notice event, without its time.
#[derive(Debug)]
pub struct NoticeEvent {
    pub id: String,
    pub selft: SelfId,
    pub detail: NoticeDetail,
}

/// Someone joined a group room: the member is the state key of the
/// membership event, the operator its sender.
pub fn group_increase(event_id: String, room_id: String, state_key: String, sender: String) -> (r:
    NoticeEvent)
    ensures
        r.id == event_id,
        r.selft.platform@ == platform_name(),
        r.selft.user_id@ == placeholder_self_user_id(),
        r.detail == (NoticeDetail::GroupMemberIncrease {
            group_id: room_id,
            user_id: state_key,
            operator_id: sender,
        }),
{
    NoticeEvent {
        id: event_id,
        selft: get_self(),
        detail: NoticeDetail::GroupMemberIncrease {
            group_id: room_id,
            user_id: state_key,
            operator_id: sender,
        },
    }
}

/// Someone left a group room (or knocked on it): the member is the state key
/// of the membership event, the operator its sender.
pub fn group_decrease(event_id: String, room_id: String, state_key: String, sender: String) -> (r:
    NoticeEvent)
    ensures
        r.id == event_id,
        r.selft.platform@ == platform_name(),
        r.selft.user_id@ == placeholder_self_user_id(),
        r.detail == (NoticeDetail::GroupMemberDecrease {
            group_id: room_id,
            user_id: state_key,
            operator_id: sender,
        }),
{
    NoticeEvent {
        id: event_id,
        selft: get_self(),
        detail: NoticeDetail::GroupMemberDecrease {
            group_id: room_id,
            user_id: state_key,
            operator_id: sender,
        },
    }
}

/// A direct room gained its second member: `friend` is that member.
pub fn private_increase(event_id: String, friend: String) -> (r: NoticeEvent)
    ensures
        r.id == event_id,
        r.selft.platform@ == platform_name(),
        r.selft.user_id@ == placeholder_self_user_id(),
        r.detail == (NoticeDetail::FriendIncrease { user_id: friend }),
{
    NoticeEvent {
        id: event_id,
        selft: get_self(),
        detail: NoticeDetail::FriendIncrease { user_id: friend },
    }
}

/// Someone left a direct room (or knocked on it): the friend is the sender
/// of the membership event.
pub fn private_decrease(event_id: String, sender: String) -> (r: NoticeEvent)
    ensures
        r.id == event_id,
        r.selft.platform@ == platform_name(),
        r.selft.user_id@ == placeholder_self_user_id(),
        r.detail == (NoticeDetail::FriendDecrease { user_id: sender }),
{
    NoticeEvent {
        id: event_id,
        selft: get_self(),
        detail: NoticeDetail::FriendDecrease { user_id: sender },
    }
}

/// Where a OneBot message event was sent.
#[derive(Debug)]
pub enum MessageScope {
    Private,
    Group { group_id: String },
}

/// A OneBot message event, without its time. `message` holds its text
/// segments.
#[derive(Debug)]
pub struct MessageEvent {
    pub id: String,
    pub selft: SelfId,
    pub message_id: String,
    pub message: Vec<String>,
    pub alt_message: String,
    pub user_id: String,
    pub scope: MessageScope,
}

/// The parts of a message event that do not depend on where it was sent:
/// the event id as id and message id, the readable form of the content as
/// its one text segment and as its alternative text, the sender as user.
pub open spec fn message_body_matches(
    r: MessageEvent,
    event_id: Seq<char>,
    sender: Seq<char>,
    content: MessageContent,
) -> bool {
    &&& r.id@ == event_id
    &&& r.message_id@ == event_id
    &&& r.selft.platform@ == platform_name()
    &&& r.selft.user_id@ == placeholder_self_user_id()
    &&& r.message@.len() == 1
    &&& r.message@[0]@ == alt_text(content)
    &&& r.alt_message@ == alt_text(content)
    &&& r.user_id@ == sender
}

fn build_message(event_id: String, sender: String, content: &MessageContent, scope: MessageScope) -> (r:
    MessageEvent)
    ensures
        message_body_matches(r, event_id@, sender@, *content),
        r.scope == scope,
{
    let segment = alt_message(content);
    let alt = alt_message(content);
    let message_id = event_id.clone();
    let mut message: Vec<String> = Vec::new();
    message.push(segment);
    MessageEvent {
        id: event_id,
        selft: get_self(),
        message_id,
        message,
        alt_message: alt,
        user_id: sender,
        scope,
    }
}

/// The OneBot event for a message in a direct room.
pub fn private(event_id: String, sender: String, content: &MessageContent) -> (r: MessageEvent)
    ensures
        message_body_matches(r, event_id@, sender@, *content),
        r.scope == MessageScope::Private,
{
    build_message(event_id, sender, content, MessageScope::Private)
}

/// The OneBot event for a message in a group room.
pub fn group(event_id: String, room_id: String, sender: String, content: &MessageContent) -> (r:
    MessageEvent)
    ensures
        message_body_matches(r, event_id@, sender@, *content),
        r.scope == (MessageScope::Group { group_id: room_id }),
{
    build_message(event_id, sender, content, MessageScope::Group { group_id: room_id })
}

} // verus!
