//! Sending messages and attachments, and the checks made before talking to
//! the homeserver about rooms.
use vstd::prelude::*;
use vstd::string::*;

use crate::boundary::{
    mime_top_level, mime_top_level_type, parse_url, parsed_server_url, room_id_is_valid, uint_new,
    valid_room_id, ServerUrl, MAX_SAFE_UINT,
};
use crate::text::equal_str;
use crate::timeline::TimelineError;

verus! {

/// Why a client could not be made.
#[derive(PartialEq, Eq, Structural, Clone, Copy, Debug)]
pub enum ClientError {
    InvalidHomeserver,
    RequestFailed,
}

/// The homeserver address a client is made for: `InvalidHomeserver` when
/// `homeserver_url_str` is not a URL.
pub fn create_client(homeserver_url_str: &str) -> (r: Result<ServerUrl, ClientError>)
    ensures
        match parsed_server_url(homeserver_url_str@) {
            Some(u) => r is Ok && r->Ok_0@ == u,
            None => r == Err::<ServerUrl, ClientError>(ClientError::InvalidHomeserver),
        },
{
    match parse_url(homeserver_url_str) {
        Some(u) => Ok(u),
        None => Err(ClientError::InvalidHomeserver),
    }
}

/// Why a room could not be joined.
#[derive(PartialEq, Eq, Structural, Clone, Copy, Debug)]
pub enum JoinRoomError {
    RequestFailed,
    InvalidRoomId,
}

/// Why a room could not be left.
#[derive(PartialEq, Eq, Structural, Clone, Copy, Debug)]
pub enum LeaveRoomError {
    InvalidRoomId,
    RoomNotFound,
    Failed,
}

/// The room to leave: `InvalidRoomId` when `id` is not a room id.
pub fn leave_room(id: &str) -> (r: Result<String, LeaveRoomError>)
    ensures
        valid_room_id(id@) ==> r is Ok && r->Ok_0@ == id@,
        !valid_room_id(id@) ==> r == Err::<String, LeaveRoomError>(LeaveRoomError::InvalidRoomId),
{
    if room_id_is_valid(id) {
        Ok(id.to_owned())
    } else {
        Err(LeaveRoomError::InvalidRoomId)
    }
}

/// Why a message could not be sent.
#[derive(PartialEq, Eq, Structural, Clone, Copy, Debug)]
pub enum SendMessageError {
    RoomNotFound,
    DispatchMessage,
    InvalidFile,
}

/// How a new message relates to earlier events.
pub enum RelationPlan {
    /// A message of the thread rooted at `thread_root`, after `latest_event`.
    ThreadPlain { thread_root: String, latest_event: String },
    /// A message of the thread rooted at `thread_root` that answers `reply_to`.
    ThreadReply { thread_root: String, reply_to: String },
    /// An answer to `in_reply_to`.
    Reply { in_reply_to: String },
}

pub enum RelationPlanView {
    ThreadPlain { thread_root: Seq<char>, latest_event: Seq<char> },
    ThreadReply { thread_root: Seq<char>, reply_to: Seq<char> },
    Reply { in_reply_to: Seq<char> },
}

impl View for RelationPlan {
    type V = RelationPlanView;

    open spec fn view(&self) -> RelationPlanView {
        match self {
            RelationPlan::ThreadPlain { thread_root, latest_event } => RelationPlanView::ThreadPlain {
                thread_root: thread_root@,
                latest_event: latest_event@,
            },
            RelationPlan::ThreadReply { thread_root, reply_to } => RelationPlanView::ThreadReply {
                thread_root: thread_root@,
                reply_to: reply_to@,
            },
            RelationPlan::Reply { in_reply_to } => RelationPlanView::Reply {
                in_reply_to: in_reply_to@,
            },
        }
    }
}

impl DeepView for RelationPlan {
    type V = RelationPlanView;

    open spec fn deep_view(&self) -> RelationPlanView {
        self@
    }
}

/// The relation of a new message: with a latest thread event, a plain
/// thread message when a thread is given (and none otherwise, the reply
/// being ignored); else, with a reply, a threaded reply when a thread is
/// given and a plain reply otherwise; else none.
pub open spec fn relation_plan(
    reply_to: Option<Seq<char>>,
    thread_to: Option<Seq<char>>,
    latest_event: Option<Seq<char>>,
) -> Option<RelationPlanView> {
    match latest_event {
        Some(l) => match thread_to {
            Some(t) => Some(RelationPlanView::ThreadPlain { thread_root: t, latest_event: l }),
            None => None,
        },
        None => match reply_to {
            Some(r) => match thread_to {
                Some(t) => Some(RelationPlanView::ThreadReply { thread_root: t, reply_to: r }),
                None => Some(RelationPlanView::Reply { in_reply_to: r }),
            },
            None => None,
        },
    }
}

/// The relation a new message is sent with (see `relation_plan`).
pub fn send_message(
    reply_to: Option<String>,
    thread_to: Option<String>,
    latest_event: Option<String>,
) -> (r: Option<RelationPlan>)
    ensures
        r.deep_view() == relation_plan(
            reply_to.deep_view(),
            thread_to.deep_view(),
            latest_event.deep_view(),
        ),
{
    match latest_event {
        Some(l) => match thread_to {
            Some(t) => Some(RelationPlan::ThreadPlain { thread_root: t, latest_event: l }),
            None => None,
        },
        None => match reply_to {
            Some(r) => match thread_to {
                Some(t) => Some(RelationPlan::ThreadReply { thread_root: t, reply_to: r }),
                None => Some(RelationPlan::Reply { in_reply_to: r }),
            },
            None => None,
        },
    }
}

/// A file to send: its name, its bytes and its media type.
pub struct Attachment {
    pub body: String,
    pub data: Vec<u8>,
    pub content_type: String,
}

/// A file to send, and whether it goes to the open thread.
pub struct AttachmentStream {
    pub attachment: Attachment,
    pub send_to_thread: bool,
}

/// The kind of message a file is sent as.
#[derive(PartialEq, Eq, Structural, Clone, Copy, Debug)]
pub enum AttachmentKind {
    Image,
    Video,
    File,
}

/// The message kind for a top-level media type: images, videos, and
/// `application` files; nothing for any other type.
pub open spec fn attachment_kind_of(top_level: Option<Seq<char>>) -> Option<AttachmentKind> {
    match top_level {
        Some(t) => if t == "image"@ {
            Some(AttachmentKind::Image)
        } else if t == "video"@ {
            Some(AttachmentKind::Video)
        } else if t == "application"@ {
            Some(AttachmentKind::File)
        } else {
            None
        },
        None => None,
    }
}

/// How an attachment is sent: as an image, a video or a file according to
/// the top-level type of its media type, `InvalidFile` for any other type;
/// and whether it goes out as a message with a relation (when it answers a
/// message or continues a thread) rather than as a plain upload.
pub fn send_attachment(
    attach: &Attachment,
    reply_to: &Option<String>,
    latest_event: &Option<String>,
) -> (r: Result<(AttachmentKind, bool), SendMessageError>)
    ensures
        match attachment_kind_of(mime_top_level(attach.content_type@)) {
            Some(k) => r == Ok::<(AttachmentKind, bool), SendMessageError>(
                (k, reply_to is Some || latest_event is Some),
            ),
            None => r == Err::<(AttachmentKind, bool), SendMessageError>(
                SendMessageError::InvalidFile,
            ),
        },
{
    let top = mime_top_level_type(attach.content_type.as_str());
    let kind = match top {
        Some(t) => {
            if equal_str(t.as_str(), "image") {
                AttachmentKind::Image
            } else if equal_str(t.as_str(), "video") {
                AttachmentKind::Video
            } else if equal_str(t.as_str(), "application") {
                AttachmentKind::File
            } else {
                return Err(SendMessageError::InvalidFile);
            }
        },
        None => return Err(SendMessageError::InvalidFile),
    };
    Ok((kind, reply_to.is_some() || latest_event.is_some()))
}

/// Why a room could not be created.
#[derive(PartialEq, Eq, Structural, Clone, Copy, Debug)]
pub enum CreateRoomError {
    RequestFailed,
    InvalidMedia,
    InvalidInfo,
}

/// The request to create a room: its name, whether it is a direct chat,
/// who is invited and whether it is a private chat (private visibility and
/// the private-chat preset).
pub struct CreateRoomPlan {
    pub name: Option<String>,
    pub is_direct: bool,
    pub invite: Vec<String>,
    pub private_chat: bool,
}

/// The request to create a room: a direct chat invites `users` and is a
/// private chat; any other room invites nobody and keeps the defaults.
pub fn create_room(is_dm: bool, users: Vec<String>, name: Option<String>) -> (r: CreateRoomPlan)
    ensures
        r.name == name,
        r.is_direct == is_dm,
        r.private_chat == is_dm,
        is_dm ==> r.invite@ == users@,
        !is_dm ==> r.invite@.len() == 0,
{
    let invite = if is_dm {
        users
    } else {
        Vec::new()
    };
    CreateRoomPlan { name, is_direct: is_dm, invite, private_chat: is_dm }
}

/// The number of events to ask for: `InvalidLimit` beyond what the Matrix
/// API can carry (2^53 - 1).
pub fn timeline_limit(limit: u64) -> (r: Result<u64, TimelineError>)
    ensures
        limit <= MAX_SAFE_UINT ==> r == Ok::<u64, TimelineError>(limit),
        limit > MAX_SAFE_UINT ==> r == Err::<u64, TimelineError>(TimelineError::InvalidLimit),
{
    match uint_new(limit) {
        Some(v) => Ok(v),
        None => Err(TimelineError::InvalidLimit),
    }
}

/// The homeserver a session was made for.
pub struct ClientSession {
    pub homeserver: String,
}

/// The result of logging in.
pub struct LoginResult {}

} // verus!
