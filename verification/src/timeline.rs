//! Room timelines: turning room-message events into timeline entries,
//! resolving replies and threads, and merging entries into the list that
//! the chat view shows (newest batch first, threads folded together).
use vstd::prelude::*;
use vstd::string::*;

use crate::boundary::{
    is_local_reading, local_time_label, utc_clock_label, utc_time_label, MAX_TIMESTAMP_MS,
};
use crate::boundary::MAX_SAFE_UINT;
use crate::messaging::timeline_limit;
use crate::text::{
    clone_opt_string, concat2, contains_str, equal_str, has_substring, replace_all, replaced,
    starts_with, trim, trimmed,
};

verus! {

// ---------------------------------------------------------------------------
// Output types
// ---------------------------------------------------------------------------

/// A member of a room as shown next to their messages.
pub struct RoomMember {
    pub id: String,
    pub name: String,
    pub avatar_uri: Option<String>,
}

pub struct RoomMemberView {
    pub id: Seq<char>,
    pub name: Seq<char>,
    pub avatar_uri: Option<Seq<char>>,
}

impl View for RoomMember {
    type V = RoomMemberView;

    open spec fn view(&self) -> RoomMemberView {
        RoomMemberView {
            id: self.id@,
            name: self.name@,
            avatar_uri: self.avatar_uri.deep_view(),
        }
    }
}

impl DeepView for RoomMember {
    type V = RoomMemberView;

    open spec fn deep_view(&self) -> RoomMemberView {
        self@
    }
}

impl Clone for RoomMember {
    fn clone(&self) -> (r: Self)
        ensures
            r == *self,
    {
        RoomMember {
            id: self.id.clone(),
            name: self.name.clone(),
            avatar_uri: clone_opt_string(&self.avatar_uri),
        }
    }
}

/// Where the content of a media message can be found.
pub enum ImageType {
    URL(String),
    Media(Vec<u8>),
}

pub enum ImageTypeView {
    URL(Seq<char>),
    Media(Seq<u8>),
}

impl View for ImageType {
    type V = ImageTypeView;

    open spec fn view(&self) -> ImageTypeView {
        match self {
            ImageType::URL(u) => ImageTypeView::URL(u@),
            ImageType::Media(d) => ImageTypeView::Media(d@),
        }
    }
}

impl DeepView for ImageType {
    type V = ImageTypeView;

    open spec fn deep_view(&self) -> ImageTypeView {
        self@
    }
}

impl Clone for ImageType {
    fn clone(&self) -> (r: Self)
        ensures
            r@ == self@,
    {
        match self {
            ImageType::URL(u) => ImageType::URL(u.clone()),
            ImageType::Media(d) => ImageType::Media(d.clone()),
        }
    }
}

/// The body of an image, file or video message.
pub struct FileContent {
    pub size: Option<u64>,
    pub body: String,
    pub source: Option<ImageType>,
}

pub struct FileContentView {
    pub size: Option<u64>,
    pub body: Seq<char>,
    pub source: Option<ImageTypeView>,
}

impl View for FileContent {
    type V = FileContentView;

    open spec fn view(&self) -> FileContentView {
        FileContentView { size: self.size, body: self.body@, source: self.source.deep_view() }
    }
}

impl DeepView for FileContent {
    type V = FileContentView;

    open spec fn deep_view(&self) -> FileContentView {
        self@
    }
}

impl Clone for FileContent {
    fn clone(&self) -> (r: Self)
        ensures
            r@ == self@,
    {
        FileContent {
            size: self.size,
            body: self.body.clone(),
            source: match &self.source {
                Some(x) => Some(x.clone()),
                None => None,
            },
        }
    }
}

/// What a timeline message shows.
pub enum TimelineMessageType {
    Image(FileContent),
    Text(String),
    Html(String),
    File(FileContent),
    Video(FileContent),
}

pub enum TimelineMessageTypeView {
    Image(FileContentView),
    Text(Seq<char>),
    Html(Seq<char>),
    File(FileContentView),
    Video(FileContentView),
}

impl View for TimelineMessageType {
    type V = TimelineMessageTypeView;

    open spec fn view(&self) -> TimelineMessageTypeView {
        match self {
            TimelineMessageType::Image(f) => TimelineMessageTypeView::Image(f@),
            TimelineMessageType::Text(t) => TimelineMessageTypeView::Text(t@),
            TimelineMessageType::Html(t) => TimelineMessageTypeView::Html(t@),
            TimelineMessageType::File(f) => TimelineMessageTypeView::File(f@),
            TimelineMessageType::Video(f) => TimelineMessageTypeView::Video(f@),
        }
    }
}

impl DeepView for TimelineMessageType {
    type V = TimelineMessageTypeView;

    open spec fn deep_view(&self) -> TimelineMessageTypeView {
        self@
    }
}

impl Clone for TimelineMessageType {
    fn clone(&self) -> (r: Self)
        ensures
            r@ == self@,
    {
        match self {
            TimelineMessageType::Image(f) => TimelineMessageType::Image(f.clone()),
            TimelineMessageType::Text(t) => TimelineMessageType::Text(t.clone()),
            TimelineMessageType::Html(t) => TimelineMessageType::Html(t.clone()),
            TimelineMessageType::File(f) => TimelineMessageType::File(f.clone()),
            TimelineMessageType::Video(f) => TimelineMessageType::Video(f.clone()),
        }
    }
}

/// Whether a message was sent by the logged-in user.
#[derive(PartialEq, Eq, Structural, Clone, Copy, Debug)]
pub enum EventOrigin {
    OTHER,
    ME,
}

/// One message of a room timeline.
pub struct TimelineMessage {
    pub event_id: String,
    pub sender: RoomMember,
    pub body: TimelineMessageType,
    pub origin: EventOrigin,
    pub time: String,
}

pub struct TimelineMessageView {
    pub event_id: Seq<char>,
    pub sender: RoomMemberView,
    pub body: TimelineMessageTypeView,
    pub origin: EventOrigin,
    pub time: Seq<char>,
}

impl View for TimelineMessage {
    type V = TimelineMessageView;

    open spec fn view(&self) -> TimelineMessageView {
        TimelineMessageView {
            event_id: self.event_id@,
            sender: self.sender@,
            body: self.body@,
            origin: self.origin,
            time: self.time@,
        }
    }
}

impl DeepView for TimelineMessage {
    type V = TimelineMessageView;

    open spec fn deep_view(&self) -> TimelineMessageView {
        self@
    }
}

impl Clone for TimelineMessage {
    fn clone(&self) -> (r: Self)
        ensures
            r@ == self@,
    {
        TimelineMessage {
            event_id: self.event_id.clone(),
            sender: self.sender.clone(),
            body: self.body.clone(),
            origin: self.origin,
            time: self.time.clone(),
        }
    }
}

/// A copy of a list of messages.
pub fn clone_messages(v: &Vec<TimelineMessage>) -> (r: Vec<TimelineMessage>)
    ensures
        r.deep_view() == v.deep_view(),
{
    let mut r: Vec<TimelineMessage> = Vec::new();
    let n = v.len();
    let mut i: usize = 0;
    while i < n
        invariant
            n == v.len(),
            i <= n,
            r.deep_view() == v.deep_view().take(i as int),
        decreases n - i,
    {
        r.push(v[i].clone());
        proof {
            assert(v.deep_view().take(i + 1) =~= v.deep_view().take(i as int).push(v[i as int]@));
        }
        i = i + 1;
    }
    assert(v.deep_view().take(n as int) =~= v.deep_view());
    r
}

/// A message together with the message it answers, when that is known.
pub struct TimelineMessageReply {
    pub event: TimelineMessage,
    pub reply: Option<TimelineMessage>,
}

pub struct TimelineMessageReplyView {
    pub event: TimelineMessageView,
    pub reply: Option<TimelineMessageView>,
}

impl View for TimelineMessageReply {
    type V = TimelineMessageReplyView;

    open spec fn view(&self) -> TimelineMessageReplyView {
        TimelineMessageReplyView { event: self.event@, reply: self.reply.deep_view() }
    }
}

impl DeepView for TimelineMessageReply {
    type V = TimelineMessageReplyView;

    open spec fn deep_view(&self) -> TimelineMessageReplyView {
        self@
    }
}

/// Messages sent into the thread rooted at `event_id`.
pub struct TimelineMessageThread {
    pub event_id: String,
    pub thread: Vec<TimelineMessage>,
}

pub struct TimelineMessageThreadView {
    pub event_id: Seq<char>,
    pub thread: Seq<TimelineMessageView>,
}

impl View for TimelineMessageThread {
    type V = TimelineMessageThreadView;

    open spec fn view(&self) -> TimelineMessageThreadView {
        TimelineMessageThreadView { event_id: self.event_id@, thread: self.thread.deep_view() }
    }
}

impl DeepView for TimelineMessageThread {
    type V = TimelineMessageThreadView;

    open spec fn deep_view(&self) -> TimelineMessageThreadView {
        self@
    }
}

/// A thread as the timeline shows it: its messages, its latest event and
/// how many messages it had when it was first seen.
pub struct TimelineThread {
    pub event_id: String,
    pub thread: Vec<TimelineMessage>,
    pub latest_event: String,
    pub count: usize,
}

pub struct TimelineThreadView {
    pub event_id: Seq<char>,
    pub thread: Seq<TimelineMessageView>,
    pub latest_event: Seq<char>,
    pub count: usize,
}

impl View for TimelineThread {
    type V = TimelineThreadView;

    open spec fn view(&self) -> TimelineThreadView {
        TimelineThreadView {
            event_id: self.event_id@,
            thread: self.thread.deep_view(),
            latest_event: self.latest_event@,
            count: self.count,
        }
    }
}

impl DeepView for TimelineThread {
    type V = TimelineThreadView;

    open spec fn deep_view(&self) -> TimelineThreadView {
        self@
    }
}

impl Clone for TimelineThread {
    fn clone(&self) -> (r: Self)
        ensures
            r@ == self@,
    {
        TimelineThread {
            event_id: self.event_id.clone(),
            thread: clone_messages(&self.thread),
            latest_event: self.latest_event.clone(),
            count: self.count,
        }
    }
}

/// One entry of a timeline.
pub enum TimelineRelation {
    Message(TimelineMessage),
    Reply(TimelineMessageReply),
    CustomThread(TimelineThread),
    Thread(TimelineMessageThread),
}

pub enum TimelineRelationView {
    Message(TimelineMessageView),
    Reply(TimelineMessageReplyView),
    CustomThread(TimelineThreadView),
    Thread(TimelineMessageThreadView),
}

impl View for TimelineRelation {
    type V = TimelineRelationView;

    open spec fn view(&self) -> TimelineRelationView {
        match self {
            TimelineRelation::Message(m) => TimelineRelationView::Message(m@),
            TimelineRelation::Reply(r) => TimelineRelationView::Reply(r@),
            TimelineRelation::CustomThread(t) => TimelineRelationView::CustomThread(t@),
            TimelineRelation::Thread(t) => TimelineRelationView::Thread(t@),
        }
    }
}

impl DeepView for TimelineRelation {
    type V = TimelineRelationView;

    open spec fn deep_view(&self) -> TimelineRelationView {
        self@
    }
}

/// Why a timeline could not be loaded.
#[derive(PartialEq, Eq, Structural, Clone, Copy, Debug)]
pub enum TimelineError {
    RoomNotFound,
    InvalidLimit,
    MessagesNotFound,
}

// ---------------------------------------------------------------------------
// Input types: what an event of the room holds, as plain values
// ---------------------------------------------------------------------------

/// Where the media of a message lives: a plain (unencrypted) source with its
/// download address when one could be derived, or an encrypted source with
/// the address of its file and its content when it could be fetched.
pub enum MediaData {
    Plain { download_uri: Option<String> },
    Encrypted { download_uri: Option<String>, fetched: Option<Vec<u8>> },
}

pub enum MediaDataView {
    Plain { download_uri: Option<Seq<char>> },
    Encrypted { download_uri: Option<Seq<char>>, fetched: Option<Seq<u8>> },
}

impl View for MediaData {
    type V = MediaDataView;

    open spec fn view(&self) -> MediaDataView {
        match self {
            MediaData::Plain { download_uri } => MediaDataView::Plain {
                download_uri: download_uri.deep_view(),
            },
            MediaData::Encrypted { download_uri, fetched } => MediaDataView::Encrypted {
                download_uri: download_uri.deep_view(),
                fetched: match fetched {
                    Some(d) => Some(d@),
                    None => None,
                },
            },
        }
    }
}

/// The content of a room message. `html` is the formatted body of a text
/// message whose format is HTML.
pub enum MessageContent {
    Image { body: String, size: Option<u64>, media: MediaData },
    Text { body: String, html: Option<String> },
    File { body: String, size: Option<u64>, media: MediaData },
    Video { body: String, size: Option<u64>, media: MediaData },
    Unsupported,
}

pub enum MessageContentView {
    Image { body: Seq<char>, size: Option<u64>, media: MediaDataView },
    Text { body: Seq<char>, html: Option<Seq<char>> },
    File { body: Seq<char>, size: Option<u64>, media: MediaDataView },
    Video { body: Seq<char>, size: Option<u64>, media: MediaDataView },
    Unsupported,
}

impl View for MessageContent {
    type V = MessageContentView;

    open spec fn view(&self) -> MessageContentView {
        match self {
            MessageContent::Image { body, size, media } => MessageContentView::Image {
                body: body@,
                size: *size,
                media: media@,
            },
            MessageContent::Text { body, html } => MessageContentView::Text {
                body: body@,
                html: html.deep_view(),
            },
            MessageContent::File { body, size, media } => MessageContentView::File {
                body: body@,
                size: *size,
                media: media@,
            },
            MessageContent::Video { body, size, media } => MessageContentView::Video {
                body: body@,
                size: *size,
                media: media@,
            },
            MessageContent::Unsupported => MessageContentView::Unsupported,
        }
    }
}

/// A room message (not redacted): its id, its sender when the sender could be
/// looked up in the room, its content, its plain body and when the server
/// received it (milliseconds after the Unix epoch).
pub struct RoomMessageData {
    pub event_id: String,
    pub sender: Option<RoomMember>,
    pub content: MessageContent,
    pub body: String,
    pub time_ms: u64,
}

pub struct RoomMessageDataView {
    pub event_id: Seq<char>,
    pub sender: Option<RoomMemberView>,
    pub content: MessageContentView,
    pub body: Seq<char>,
    pub time_ms: u64,
}

impl View for RoomMessageData {
    type V = RoomMessageDataView;

    open spec fn view(&self) -> RoomMessageDataView {
        RoomMessageDataView {
            event_id: self.event_id@,
            sender: self.sender.deep_view(),
            content: self.content@,
            body: self.body@,
            time_ms: self.time_ms,
        }
    }
}

/// How a room message relates to another event. For a reply, `replied` is
/// the answered event when it could be fetched and is a room message
/// (not redacted).
pub enum RelationData {
    Absent,
    Custom,
    Reply { replied: Option<RoomMessageData> },
    Thread { root_event_id: String },
    Other,
}

pub enum RelationDataView {
    Absent,
    Custom,
    Reply { replied: Option<RoomMessageDataView> },
    Thread { root_event_id: Seq<char> },
    Other,
}

impl View for RelationData {
    type V = RelationDataView;

    open spec fn view(&self) -> RelationDataView {
        match self {
            RelationData::Absent => RelationDataView::Absent,
            RelationData::Custom => RelationDataView::Custom,
            RelationData::Reply { replied } => RelationDataView::Reply {
                replied: match replied {
                    Some(m) => Some(m@),
                    None => None,
                },
            },
            RelationData::Thread { root_event_id } => RelationDataView::Thread {
                root_event_id: root_event_id@,
            },
            RelationData::Other => RelationDataView::Other,
        }
    }
}

/// An event of a room timeline. For a room message, `thread_latest_event` is
/// the latest event of the thread it heads, as its bundled relations report.
pub enum TimelineEvent {
    RoomMessage {
        message: RoomMessageData,
        relation: RelationData,
        thread_latest_event: Option<String>,
    },
    Other,
}

pub enum TimelineEventView {
    RoomMessage {
        message: RoomMessageDataView,
        relation: RelationDataView,
        thread_latest_event: Option<Seq<char>>,
    },
    Other,
}

impl View for TimelineEvent {
    type V = TimelineEventView;

    open spec fn view(&self) -> TimelineEventView {
        match self {
            TimelineEvent::RoomMessage { message, relation, thread_latest_event } =>
                TimelineEventView::RoomMessage {
                message: message@,
                relation: relation@,
                thread_latest_event: thread_latest_event.deep_view(),
            },
            TimelineEvent::Other => TimelineEventView::Other,
        }
    }
}

// ---------------------------------------------------------------------------
// Specification
// ---------------------------------------------------------------------------

/// `ME` when the member is the logged-in user, `OTHER` otherwise.
pub open spec fn origin_of(member_id: Seq<char>, logged_user_id: Seq<char>) -> EventOrigin {
    if member_id == logged_user_id {
        EventOrigin::ME
    } else {
        EventOrigin::OTHER
    }
}

/// The timeline message with the given parts.
pub open spec fn message_view(
    event_id: Seq<char>,
    member: RoomMemberView,
    logged_user_id: Seq<char>,
    time: Seq<char>,
    body: TimelineMessageTypeView,
) -> TimelineMessageView {
    TimelineMessageView {
        event_id,
        sender: member,
        body,
        origin: origin_of(member.id, logged_user_id),
        time,
    }
}

/// The download address of a media source, whichever kind it is.
pub open spec fn media_uri(m: MediaDataView) -> Option<Seq<char>> {
    match m {
        MediaDataView::Plain { download_uri } => download_uri,
        MediaDataView::Encrypted { download_uri, .. } => download_uri,
    }
}

/// A download address as the source of a file.
pub open spec fn uri_source(u: Option<Seq<char>>) -> Option<ImageTypeView> {
    match u {
        Some(x) => Some(ImageTypeView::URL(x)),
        None => None,
    }
}

/// What a message content is shown as: images need their address (plain)
/// or their fetched thumbnail (encrypted); encrypted videos need their
/// fetched file; files always show; text shows its HTML body when it has one;
/// other kinds of messages are not shown.
pub open spec fn content_body(c: MessageContentView) -> Option<TimelineMessageTypeView> {
    match c {
        MessageContentView::Image { body, size, media } => match media {
            MediaDataView::Plain { download_uri } => match download_uri {
                Some(u) => Some(
                    TimelineMessageTypeView::Image(
                        FileContentView { size, body, source: Some(ImageTypeView::URL(u)) },
                    ),
                ),
                None => None,
            },
            MediaDataView::Encrypted { fetched, .. } => match fetched {
                Some(d) => Some(
                    TimelineMessageTypeView::Image(
                        FileContentView { size, body, source: Some(ImageTypeView::Media(d)) },
                    ),
                ),
                None => None,
            },
        },
        MessageContentView::Text { body, html } => match html {
            Some(h) => Some(TimelineMessageTypeView::Html(h)),
            None => Some(TimelineMessageTypeView::Text(body)),
        },
        MessageContentView::File { body, size, media } => Some(
            TimelineMessageTypeView::File(
                FileContentView { size, body, source: uri_source(media_uri(media)) },
            ),
        ),
        MessageContentView::Video { body, size, media } => match media {
            MediaDataView::Plain { download_uri } => Some(
                TimelineMessageTypeView::Video(
                    FileContentView { size, body, source: uri_source(download_uri) },
                ),
            ),
            MediaDataView::Encrypted { fetched, .. } => match fetched {
                Some(d) => Some(
                    TimelineMessageTypeView::Video(
                        FileContentView { size, body, source: Some(ImageTypeView::Media(d)) },
                    ),
                ),
                None => None,
            },
        },
        MessageContentView::Unsupported => None,
    }
}

/// The timeline message for a message content, sent by `member`, at `time`.
pub open spec fn formatted_message(
    c: MessageContentView,
    event_id: Seq<char>,
    member: RoomMemberView,
    logged_user_id: Seq<char>,
    time: Seq<char>,
) -> Option<TimelineMessageView> {
    match content_body(c) {
        Some(b) => Some(message_view(event_id, member, logged_user_id, time, b)),
        None => None,
    }
}

/// The timeline message for a room message, with the clock
/// reading `time`: none when its sender is not a known member.
pub open spec fn timeline_message_at(
    m: RoomMessageDataView,
    logged_user_id: Seq<char>,
    time: Seq<char>,
) -> Option<TimelineMessageView> {
    match m.sender {
        Some(member) => formatted_message(m.content, m.event_id, member, logged_user_id, time),
        None => None,
    }
}

/// The quote prefix that a reply's body repeats from the answered message.
pub open spec fn quote_prefix(sender_id: Seq<char>) -> Seq<char> {
    "> <"@ + sender_id + "> "@
}

/// The new body of a reply whose answered message is `r`, when the reply's
/// body `n_body` repeats a quote of it: the quote removed from `n_body`.
pub open spec fn reply_rewrite(n_body: Seq<char>, r: TimelineMessageView) -> Option<Seq<char>> {
    match r.body {
        TimelineMessageTypeView::Image(_) => if has_substring(n_body, "sent an image."@) {
            Some(replaced(n_body, quote_prefix(r.sender.id) + "sent an image."@, ""@))
        } else {
            None
        },
        TimelineMessageTypeView::Text(b) => if ">"@.is_prefix_of(b) {
            Some(replaced(n_body, quote_prefix(r.sender.id) + trimmed(b), ""@))
        } else {
            None
        },
        _ => None,
    }
}

/// The timeline entry of a message `msg` (sent by `member`, with plain body
/// `n_body`) that relates to another event, where `utc` is the UTC clock
/// reading of the message and `reply_time` the clock reading of the answered
/// (not redacted).
pub open spec fn relation_at(
    n_body: Seq<char>,
    rel: RelationDataView,
    msg: TimelineMessageView,
    member: RoomMemberView,
    logged_user_id: Seq<char>,
    utc: Seq<char>,
    reply_time: Seq<char>,
) -> Option<TimelineRelationView> {
    match rel {
        RelationDataView::Reply { replied } => match replied {
            None => None,
            Some(ev) => match timeline_message_at(ev, logged_user_id, reply_time) {
                None => None,
                Some(r) => Some(
                    TimelineRelationView::Reply(
                        TimelineMessageReplyView {
                            event: match reply_rewrite(n_body, r) {
                                Some(b) => message_view(
                                    ev.event_id,
                                    member,
                                    logged_user_id,
                                    utc,
                                    TimelineMessageTypeView::Text(b),
                                ),
                                None => msg,
                            },
                            reply: Some(r),
                        },
                    ),
                ),
            },
        },
        RelationDataView::Thread { root_event_id } => Some(
            TimelineRelationView::Thread(
                TimelineMessageThreadView { event_id: root_event_id, thread: seq![msg] },
            ),
        ),
        _ => None,
    }
}

/// The timeline entry of an event, given the clock readings of the event
/// (`time`) and of the message it answers (`reply_time`).
pub open spec fn event_relation_at(
    ev: TimelineEventView,
    logged_user_id: Seq<char>,
    time: Seq<char>,
    reply_time: Seq<char>,
) -> Option<TimelineRelationView> {
    match ev {
        TimelineEventView::Other => None,
        TimelineEventView::RoomMessage { message, relation, .. } => match message.sender {
            None => None,
            Some(member) => match formatted_message(
                message.content,
                message.event_id,
                member,
                logged_user_id,
                time,
            ) {
                None => None,
                Some(m) => match relation {
                    RelationDataView::Absent => Some(TimelineRelationView::Message(m)),
                    RelationDataView::Custom => Some(TimelineRelationView::Message(m)),
                    _ => relation_at(
                        message.body,
                        relation,
                        m,
                        member,
                        logged_user_id,
                        utc_clock_label(message.time_ms as int),
                        reply_time,
                    ),
                },
            },
        },
    }
}

/// Whether an event's message is shown and answers a known message sent by
/// a known member: the one case where the answered message is formatted.
pub open spec fn formats_answered(ev: TimelineEventView) -> bool {
    match ev {
        TimelineEventView::RoomMessage { message, relation, .. } => {
            &&& message.sender is Some
            &&& content_body(message.content) is Some
            &&& relation matches RelationDataView::Reply { replied: Some(r) }
            &&& r.sender is Some
        },
        TimelineEventView::Other => false,
    }
}

/// The answered message of a reply.
pub open spec fn answered(ev: TimelineEventView) -> RoomMessageDataView {
    match ev {
        TimelineEventView::RoomMessage {
            relation: RelationDataView::Reply { replied: Some(r) },
            ..
        } => r,
        _ => arbitrary(),
    }
}

/// Whether `t1` and `t2` are the local clock readings an event is shown
/// with, wherever they are computed: `t1` of its message when the sender is
/// known, `t2` of the answered message when that message is formatted.
pub open spec fn event_readings(ev: TimelineEventView, t1: Seq<char>, t2: Seq<char>) -> bool {
    &&& (ev matches TimelineEventView::RoomMessage { message, .. } && message.sender is Some)
        ==> is_local_reading(ev->message.time_ms as int, t1)
    &&& formats_answered(ev) ==> is_local_reading(answered(ev).time_ms as int, t2)
}

/// The entries an event can become, for the local clock readings of its
/// message and of the message it answers.
pub open spec fn possible_relation(
    ev: TimelineEventView,
    logged_user_id: Seq<char>,
    r: Option<TimelineRelationView>,
) -> bool {
    exists|t1: Seq<char>, t2: Seq<char>|
        event_readings(ev, t1, t2) && r == event_relation_at(ev, logged_user_id, t1, t2)
}

/// The timestamps of an event stay within what chrono converts, wherever a
/// clock reading is computed: the message's when its sender is known, the
/// answered message's when it is formatted.
pub open spec fn event_times_in_range(ev: TimelineEventView) -> bool {
    &&& (ev matches TimelineEventView::RoomMessage { message, .. } && message.sender is Some)
        ==> ev->message.time_ms <= MAX_TIMESTAMP_MS
    &&& formats_answered(ev) ==> answered(ev).time_ms <= MAX_TIMESTAMP_MS
}

/// A timeline entry that `merge_step` accepts: a thread entry carries at
/// least one message.
pub open spec fn mergeable(r: TimelineRelationView) -> bool {
    match r {
        TimelineRelationView::Thread(t) => t.thread.len() > 0,
        _ => true,
    }
}

/// Whether entry `r` is a folded thread, and (when `id` is given) the thread
/// rooted at `id`.
pub open spec fn is_thread_with(r: TimelineRelationView, id: Option<Seq<char>>) -> bool {
    match r {
        TimelineRelationView::CustomThread(t) => match id {
            Some(i) => t.event_id == i,
            None => true,
        },
        _ => false,
    }
}

/// `p` is the first position of `ms` holding a folded thread (rooted at `id`
/// when `id` is given).
pub open spec fn is_first_thread(ms: Seq<TimelineRelationView>, id: Option<Seq<char>>, p: int) -> bool {
    &&& 0 <= p < ms.len()
    &&& is_thread_with(ms[p], id)
    &&& forall|j: int| 0 <= j < p ==> !is_thread_with(#[trigger] ms[j], id)
}

/// The first position of `ms` holding a folded thread (rooted at `id` when
/// `id` is given), if any.
pub open spec fn thread_pos(ms: Seq<TimelineRelationView>, id: Option<Seq<char>>) -> Option<int> {
    if exists|p: int| is_first_thread(ms, id, p) {
        Some(choose|p: int| is_first_thread(ms, id, p))
    } else {
        None
    }
}

/// The thread held at a position that `thread_pos` found.
pub open spec fn thread_at(ms: Seq<TimelineRelationView>, p: int) -> TimelineThreadView {
    match ms[p] {
        TimelineRelationView::CustomThread(t) => t,
        _ => arbitrary(),
    }
}

/// The timeline after one more entry `rel`, read newest first:
/// - a thread message is added at the front of the first folded thread, or,
///   when there is none yet, starts a folded thread at the front;
/// - a plain message that heads a folded thread is added at the front of that
///   thread, whose latest event becomes `head_latest` when that is known;
/// - any other entry goes to the front of the timeline.
pub open spec fn merge_step(
    ms: Seq<TimelineRelationView>,
    rel: TimelineRelationView,
    head_latest: Option<Seq<char>>,
) -> Seq<TimelineRelationView> {
    match rel {
        TimelineRelationView::Thread(t) => match thread_pos(ms, None) {
            Some(p) => {
                let ct = thread_at(ms, p);
                ms.update(
                    p,
                    TimelineRelationView::CustomThread(
                        TimelineThreadView { thread: ct.thread.insert(0, t.thread[0]), ..ct },
                    ),
                )
            },
            None => seq![
                TimelineRelationView::CustomThread(
                    TimelineThreadView {
                        event_id: t.event_id,
                        thread: t.thread,
                        latest_event: t.thread.last().event_id,
                        count: t.thread.len() as usize,
                    },
                ),
            ] + ms,
        },
        TimelineRelationView::Message(m) => match thread_pos(ms, Some(m.event_id)) {
            Some(p) => {
                let ct = thread_at(ms, p);
                ms.update(
                    p,
                    TimelineRelationView::CustomThread(
                        TimelineThreadView {
                            thread: ct.thread.insert(0, m),
                            latest_event: match head_latest {
                                Some(l) => l,
                                None => ct.latest_event,
                            },
                            ..ct
                        },
                    ),
                )
            },
            None => seq![rel] + ms,
        },
        _ => seq![rel] + ms,
    }
}


// ---------------------------------------------------------------------------
// Formatting messages
// ---------------------------------------------------------------------------

/// `ME` when `member_id` is the logged-in user's id, `OTHER` otherwise.
fn origin_for(member_id: &str, logged_user_id: &str) -> (o: EventOrigin)
    ensures
        o == origin_of(member_id@, logged_user_id@),
{
    if equal_str(member_id, logged_user_id) {
        EventOrigin::ME
    } else {
        EventOrigin::OTHER
    }
}

/// A download address as the source of a file.
fn uri_to_source(u: Option<String>) -> (r: Option<ImageType>)
    ensures
        r.deep_view() == uri_source(u.deep_view()),
{
    match u {
        Some(x) => Some(ImageType::URL(x)),
        None => None,
    }
}

/// What a message content is shown as, if it is shown at all.
fn content_message_type(n: MessageContent) -> (r: Option<TimelineMessageType>)
    ensures
        r.deep_view() == content_body(n@),
{
    match n {
        MessageContent::Image { body, size, media } => match media {
            MediaData::Plain { download_uri } => match download_uri {
                Some(u) => Some(
                    TimelineMessageType::Image(
                        FileContent { size, body, source: Some(ImageType::URL(u)) },
                    ),
                ),
                None => None,
            },
            MediaData::Encrypted { fetched, .. } => match fetched {
                Some(d) => Some(
                    TimelineMessageType::Image(
                        FileContent { size, body, source: Some(ImageType::Media(d)) },
                    ),
                ),
                None => None,
            },
        },
        MessageContent::Text { body, html } => match html {
            Some(h) => Some(TimelineMessageType::Html(h)),
            None => Some(TimelineMessageType::Text(body)),
        },
        MessageContent::File { body, size, media } => {
            let uri = match media {
                MediaData::Plain { download_uri } => download_uri,
                MediaData::Encrypted { download_uri, .. } => download_uri,
            };
            Some(TimelineMessageType::File(FileContent { size, body, source: uri_to_source(uri) }))
        },
        MessageContent::Video { body, size, media } => match media {
            MediaData::Plain { download_uri } => Some(
                TimelineMessageType::Video(
                    FileContent { size, body, source: uri_to_source(download_uri) },
                ),
            ),
            MediaData::Encrypted { fetched, .. } => match fetched {
                Some(d) => Some(
                    TimelineMessageType::Video(
                        FileContent { size, body, source: Some(ImageType::Media(d)) },
                    ),
                ),
                None => None,
            },
        },
        MessageContent::Unsupported => None,
    }
}

/// The timeline message for the content `n` of event `event_id`, sent by
/// `member`, shown with the clock reading `time`.
pub fn format_message_at(
    n: MessageContent,
    event_id: String,
    member: &RoomMember,
    logged_user_id: &str,
    time: String,
) -> (r: Option<TimelineMessage>)
    ensures
        r.deep_view() == formatted_message(n@, event_id@, member@, logged_user_id@, time@),
{
    let body = match content_message_type(n) {
        Some(b) => b,
        None => return None,
    };
    let origin = origin_for(member.id.as_str(), logged_user_id);
    Some(TimelineMessage { event_id, sender: member.clone(), body, origin, time })
}

/// The timeline message for the content `n` of event `event_id`, sent by
/// `member` at `time_ms`, shown with the local clock reading of that instant.
pub fn format_original_any_room_message_event(
    n: MessageContent,
    event_id: String,
    member: &RoomMember,
    logged_user_id: &str,
    time_ms: u64,
) -> (r: Option<TimelineMessage>)
    requires
        time_ms <= MAX_TIMESTAMP_MS,
    ensures
        exists|t: Seq<char>|
            is_local_reading(time_ms as int, t) && r.deep_view() == formatted_message(
                n@,
                event_id@,
                member@,
                logged_user_id@,
                t,
            ),
{
    let time = local_time_label(time_ms);
    let ghost t = time@;
    let r = format_message_at(n, event_id, member, logged_user_id, time);
    assert(is_local_reading(time_ms as int, t));
    r
}

/// The timeline message for a room message, shown with the
/// clock reading `time`: none when its sender is not a known member.
pub fn deserialize_timeline_event_at(
    m: RoomMessageData,
    logged_user_id: &str,
    time: String,
) -> (r: Option<TimelineMessage>)
    ensures
        r.deep_view() == timeline_message_at(m@, logged_user_id@, time@),
{
    let RoomMessageData { event_id, sender, content, body: _, time_ms: _ } = m;
    match sender {
        Some(member) => format_message_at(content, event_id, &member, logged_user_id, time),
        None => None,
    }
}

/// The timeline message for a room message, shown with the local
/// clock reading of when it was received: none when its sender is not a
/// known member.
pub fn deserialize_timeline_event(m: RoomMessageData, logged_user_id: &str) -> (r: Option<
    TimelineMessage,
>)
    requires
        m.sender is Some ==> m.time_ms <= MAX_TIMESTAMP_MS,
    ensures
        exists|t: Seq<char>|
            (m.sender is Some ==> is_local_reading(m.time_ms as int, t)) && r.deep_view()
                == #[trigger] timeline_message_at(m@, logged_user_id@, t),
{
    let ghost ms = m.time_ms as int;
    let time = match &m.sender {
        Some(_) => local_time_label(m.time_ms),
        None => String::new(),
    };
    let ghost t = time@;
    let r = deserialize_timeline_event_at(m, logged_user_id, time);
    assert((m@.sender is Some ==> is_local_reading(ms, t)) && r.deep_view()
        == timeline_message_at(m@, logged_user_id@, t));
    r
}

// ---------------------------------------------------------------------------
// Replies and threads
// ---------------------------------------------------------------------------

/// The body of a reply without the quote of the answered message `r`, when
/// the body repeats such a quote.
fn rewrite_reply_body(n_body: &str, r: &TimelineMessage) -> (res: Option<String>)
    ensures
        res.deep_view() == reply_rewrite(n_body@, r@),
{
    proof {
        reveal_strlit("> <");
    }
    match &r.body {
        TimelineMessageType::Image(_) => {
            if contains_str(n_body, "sent an image.") {
                let head = concat2("> <", r.sender.id.as_str());
                let prefix = concat2(head.as_str(), "> ");
                let quote = concat2(prefix.as_str(), "sent an image.");
                Some(replace_all(n_body, quote.as_str(), ""))
            } else {
                None
            }
        },
        TimelineMessageType::Text(b) => {
            if starts_with(b.as_str(), ">") {
                let head = concat2("> <", r.sender.id.as_str());
                let prefix = concat2(head.as_str(), "> ");
                let quoted = trim(b.as_str());
                let quote = concat2(prefix.as_str(), quoted.as_str());
                Some(replace_all(n_body, quote.as_str(), ""))
            } else {
                None
            }
        },
        _ => None,
    }
}

/// The timeline entry of the message `message_result` (sent by `member` at
/// `time_ms`, with plain body `n_body`) that relates to another event as
/// `relation` says. A reply carries the message it answers (shown with the
/// clock reading `reply_time`); when the reply's body quotes that message,
/// the quote is removed and the entry takes the answered event's id and the
/// reply's UTC time. A thread message becomes a one-message thread entry.
/// Any other relation gives no entry.
pub fn format_relation_from_event_at(
    n_body: String,
    relation: RelationData,
    message_result: TimelineMessage,
    member: &RoomMember,
    logged_user_id: &str,
    time_ms: u64,
    reply_time: String,
) -> (r: Option<TimelineRelation>)
    requires
        relation@ matches RelationDataView::Reply { replied: Some(_) } ==> time_ms <= MAX_TIMESTAMP_MS,
    ensures
        r.deep_view() == relation_at(
            n_body@,
            relation@,
            message_result@,
            member@,
            logged_user_id@,
            utc_clock_label(time_ms as int),
            reply_time@,
        ),
{
    match relation {
        RelationData::Reply { replied } => match replied {
            None => None,
            Some(ev) => {
                let timestamp = utc_time_label(time_ms);
                let replied_id = ev.event_id.clone();
                match deserialize_timeline_event_at(ev, logged_user_id, reply_time) {
                    None => None,
                    Some(r) => {
                        let event = match rewrite_reply_body(n_body.as_str(), &r) {
                            Some(b) => TimelineMessage {
                                event_id: replied_id,
                                sender: member.clone(),
                                body: TimelineMessageType::Text(b),
                                origin: origin_for(member.id.as_str(), logged_user_id),
                                time: timestamp,
                            },
                            None => message_result,
                        };
                        Some(TimelineRelation::Reply(TimelineMessageReply { event, reply: Some(r) }))
                    },
                }
            },
        },
        RelationData::Thread { root_event_id } => {
            let ghost m = message_result@;
            let mut thread: Vec<TimelineMessage> = Vec::new();
            thread.push(message_result);
            assert(thread.deep_view() =~= seq![m]);
            Some(
                TimelineRelation::Thread(
                    TimelineMessageThread { event_id: root_event_id, thread },
                ),
            )
        },
        _ => None,
    }
}

/// The timeline entry of an event, given the clock reading `time` of the
/// event and `reply_time` of the message it answers: none for events that
/// are not room messages, for unknown senders and for contents that are not
/// shown; a plain message without relation (or with a custom one) as is;
/// otherwise as `format_relation_from_event_at` makes it.
pub fn deserialize_any_timeline_event_at(
    event: TimelineEvent,
    logged_user_id: &str,
    time: String,
    reply_time: String,
) -> (r: Option<TimelineRelation>)
    requires
        (event@ matches TimelineEventView::RoomMessage { message, .. } && message.sender is Some)
            ==> event@->message.time_ms <= MAX_TIMESTAMP_MS,
    ensures
        r.deep_view() == event_relation_at(event@, logged_user_id@, time@, reply_time@),
{
    match event {
        TimelineEvent::Other => None,
        TimelineEvent::RoomMessage { message, relation, thread_latest_event: _ } => {
            let RoomMessageData { event_id, sender, content, body, time_ms } = message;
            match sender {
                None => None,
                Some(member) => {
                    let formatted = format_message_at(
                        content,
                        event_id,
                        &member,
                        logged_user_id,
                        time,
                    );
                    match formatted {
                        None => None,
                        Some(m) => match relation {
                            RelationData::Absent => Some(TimelineRelation::Message(m)),
                            RelationData::Custom => Some(TimelineRelation::Message(m)),
                            _ => format_relation_from_event_at(
                                body,
                                relation,
                                m,
                                &member,
                                logged_user_id,
                                time_ms,
                                reply_time,
                            ),
                        },
                    }
                },
            }
        },
    }
}

/// Whether a message content is shown at all (see `content_body`).
fn content_shown(c: &MessageContent) -> (b: bool)
    ensures
        b == content_body(c@) is Some,
{
    match c {
        MessageContent::Image { media, .. } => match media {
            MediaData::Plain { download_uri } => download_uri.is_some(),
            MediaData::Encrypted { fetched, .. } => fetched.is_some(),
        },
        MessageContent::Text { .. } => true,
        MessageContent::File { .. } => true,
        MessageContent::Video { media, .. } => match media {
            MediaData::Plain { .. } => true,
            MediaData::Encrypted { fetched, .. } => fetched.is_some(),
        },
        MessageContent::Unsupported => false,
    }
}

/// Whether the timestamps of an event stay within what chrono converts
/// (see `event_times_in_range`).
pub fn times_in_range(event: &TimelineEvent) -> (b: bool)
    ensures
        b == event_times_in_range(event@),
{
    match event {
        TimelineEvent::RoomMessage { message, relation, .. } => {
            if message.sender.is_none() {
                return true;
            }
            if message.time_ms > MAX_TIMESTAMP_MS {
                return false;
            }
            if !content_shown(&message.content) {
                return true;
            }
            match relation {
                RelationData::Reply { replied } => match replied {
                    Some(m) => m.sender.is_none() || m.time_ms <= MAX_TIMESTAMP_MS,
                    None => true,
                },
                _ => true,
            }
        },
        TimelineEvent::Other => true,
    }
}

/// The local clock reading of the message a reply answers, computed exactly
/// when that message is formatted (see `formats_answered`).
fn reply_clock(event: &TimelineEvent) -> (t: Option<String>)
    requires
        event_times_in_range(event@),
    ensures
        t is Some <==> formats_answered(event@),
        t is Some ==> is_local_reading(answered(event@).time_ms as int, t->0@),
{
    match event {
        TimelineEvent::RoomMessage { message, relation, .. } => {
            if message.sender.is_none() || !content_shown(&message.content) {
                return None;
            }
            match relation {
                RelationData::Reply { replied } => match replied {
                    Some(m) => match &m.sender {
                        Some(_) => Some(local_time_label(m.time_ms)),
                        None => None,
                    },
                    None => None,
                },
                _ => None,
            }
        },
        TimelineEvent::Other => None,
    }
}

/// The timeline entry of an event, each message shown with the local clock
/// reading of when it was received.
pub fn deserialize_any_timeline_event(event: TimelineEvent, logged_user_id: &str) -> (r: Option<
    TimelineRelation,
>)
    requires
        event_times_in_range(event@),
    ensures
        possible_relation(event@, logged_user_id@, r.deep_view()),
{
    let time = match &event {
        TimelineEvent::RoomMessage { message, .. } => match &message.sender {
            Some(_) => local_time_label(message.time_ms),
            None => String::new(),
        },
        TimelineEvent::Other => String::new(),
    };
    let reply_time = match reply_clock(&event) {
        Some(t) => t,
        None => String::new(),
    };
    let ghost t1 = time@;
    let ghost t2 = reply_time@;
    let ghost ev = event@;
    let r = deserialize_any_timeline_event_at(event, logged_user_id, time, reply_time);
    assert(event_readings(ev, t1, t2));
    r
}

// ---------------------------------------------------------------------------
// Merging entries into a timeline
// ---------------------------------------------------------------------------

/// `thread_pos` is the position that a left-to-right search finds.
proof fn lemma_thread_pos(ms: Seq<TimelineRelationView>, id: Option<Seq<char>>, p: Option<int>)
    requires
        match p {
            Some(i) => is_first_thread(ms, id, i),
            None => forall|j: int| 0 <= j < ms.len() ==> !is_thread_with(#[trigger] ms[j], id),
        },
    ensures
        thread_pos(ms, id) == p,
{
    match p {
        Some(i) => {
            assert(is_first_thread(ms, id, i));
            let c = choose|q: int| is_first_thread(ms, id, q);
            assert(is_first_thread(ms, id, c));
            if c < i {
                assert(!is_thread_with(ms[c], id));
            } else if c > i {
                assert(!is_thread_with(ms[i], id));
            }
        },
        None => {
            assert forall|q: int| !is_first_thread(ms, id, q) by {
                if 0 <= q < ms.len() {
                    assert(!is_thread_with(ms[q], id));
                }
            }
        },
    }
}

/// The first position of `messages` holding a folded thread (rooted at `id`
/// when `id` is given).
fn find_thread(messages: &Vec<TimelineRelation>, id: &Option<String>) -> (p: Option<usize>)
    ensures
        thread_pos(messages.deep_view(), id.deep_view()) == match p {
            Some(i) => Some(i as int),
            None => None::<int>,
        },
        p is Some ==> p->0 < messages.len(),
{
    let n = messages.len();
    let ghost ms = messages.deep_view();
    let ghost idv = id.deep_view();
    let mut i: usize = 0;
    while i < n
        invariant
            n == messages.len(),
            ms == messages.deep_view(),
            idv == id.deep_view(),
            i <= n,
            forall|j: int| 0 <= j < i ==> !is_thread_with(#[trigger] ms[j], idv),
        decreases n - i,
    {
        let found = match &messages[i] {
            TimelineRelation::CustomThread(t) => match id {
                Some(x) => equal_str(t.event_id.as_str(), x.as_str()),
                None => true,
            },
            _ => false,
        };
        assert(found == is_thread_with(ms[i as int], idv));
        if found {
            proof {
                lemma_thread_pos(ms, idv, Some(i as int));
            }
            return Some(i);
        }
        i = i + 1;
    }
    proof {
        lemma_thread_pos(ms, idv, None);
    }
    None
}

/// Adds one timeline entry to `messages`, as `merge_step` describes: thread
/// messages and the heads of folded threads join their thread, anything else
/// goes to the front.
pub fn merge_timeline_relation(
    messages: &mut Vec<TimelineRelation>,
    relation: TimelineRelation,
    head_latest_event: Option<String>,
)
    requires
        mergeable(relation@),
    ensures
        final(messages).deep_view() == merge_step(
            old(messages).deep_view(),
            relation@,
            head_latest_event.deep_view(),
        ),
{
    let ghost ms = messages.deep_view();
    let ghost rel = relation@;
    let ghost hl = head_latest_event.deep_view();
    match relation {
        TimelineRelation::Thread(t) => {
            let no_id: Option<String> = None;
            match find_thread(messages, &no_id) {
                Some(p) => {
                    let TimelineMessageThread { event_id: _, thread: mut thread } = t;
                    let first = thread.remove(0);
                    let entry = messages.remove(p);
                    match entry {
                        TimelineRelation::CustomThread(mut ct) => {
                            let ghost old_thread = ct.thread.deep_view();
                            ct.thread.insert(0, first);
                            assert(ct.thread.deep_view() =~= old_thread.insert(0, first@));
                            messages.insert(p, TimelineRelation::CustomThread(ct));
                        },
                        other => {
                            messages.insert(p, other);
                        },
                    }
                    assert(messages.deep_view() =~= merge_step(ms, rel, hl));
                },
                None => {
                    let TimelineMessageThread { event_id, thread } = t;
                    let n = thread.len();
                    let latest = thread[n - 1].event_id.clone();
                    let entry = TimelineRelation::CustomThread(
                        TimelineThread { event_id, thread, latest_event: latest, count: n },
                    );
                    messages.insert(0, entry);
                    assert(messages.deep_view() =~= merge_step(ms, rel, hl));
                },
            }
        },
        TimelineRelation::Message(m) => {
            let id = Some(m.event_id.clone());
            match find_thread(messages, &id) {
                Some(p) => {
                    let entry = messages.remove(p);
                    match entry {
                        TimelineRelation::CustomThread(mut ct) => {
                            let ghost old_thread = ct.thread.deep_view();
                            let ghost mv = m@;
                            ct.thread.insert(0, m);
                            assert(ct.thread.deep_view() =~= old_thread.insert(0, mv));
                            match head_latest_event {
                                Some(l) => {
                                    ct.latest_event = l;
                                },
                                None => {},
                            }
                            messages.insert(p, TimelineRelation::CustomThread(ct));
                        },
                        other => {
                            messages.insert(p, other);
                        },
                    }
                    assert(messages.deep_view() =~= merge_step(ms, rel, hl));
                },
                None => {
                    messages.insert(0, TimelineRelation::Message(m));
                    assert(messages.deep_view() =~= merge_step(ms, rel, hl));
                },
            }
        },
        other => {
            messages.insert(0, other);
            assert(messages.deep_view() =~= merge_step(ms, rel, hl));
        },
    }
}

/// `r` is `ms` where the folded thread at position `p` has gained one
/// message at its front, keeping its root and its count, and every other
/// entry is unchanged.
pub open spec fn grew_at(ms: Seq<TimelineRelationView>, r: Seq<TimelineRelationView>, p: int) -> bool {
    &&& 0 <= p < ms.len()
    &&& r.len() == ms.len()
    &&& ms[p] is CustomThread
    &&& r[p] is CustomThread
    &&& r[p]->CustomThread_0.event_id == ms[p]->CustomThread_0.event_id
    &&& r[p]->CustomThread_0.count == ms[p]->CustomThread_0.count
    &&& r[p]->CustomThread_0.thread.len() == ms[p]->CustomThread_0.thread.len() + 1
    &&& r[p]->CustomThread_0.thread.drop_first() == ms[p]->CustomThread_0.thread
    &&& forall|j: int| 0 <= j < ms.len() && j != p ==> r[j] == ms[j]
}

/// Merging one entry changes the timeline in one place: either one new entry
/// is put in front of the unchanged timeline, or one folded thread gains one
/// message at its front while every other entry stays as it was.
pub proof fn lemma_merge_changes_one_place(
    ms: Seq<TimelineRelationView>,
    rel: TimelineRelationView,
    head_latest: Option<Seq<char>>,
)
    requires
        mergeable(rel),
    ensures
        ({
            let r = merge_step(ms, rel, head_latest);
            ||| r.len() == ms.len() + 1 && r.drop_first() == ms
            ||| exists|p: int| grew_at(ms, r, p)
        }),
{
    let r = merge_step(ms, rel, head_latest);
    match rel {
        TimelineRelationView::Thread(t) => match thread_pos(ms, None) {
            Some(p) => {
                assert(is_first_thread(ms, None, p));
                let ct = thread_at(ms, p);
                assert(ct.thread.insert(0, t.thread[0]).drop_first() =~= ct.thread);
                assert(grew_at(ms, r, p));
            },
            None => {
                assert(r.drop_first() =~= ms);
            },
        },
        TimelineRelationView::Message(m) => match thread_pos(ms, Some(m.event_id)) {
            Some(p) => {
                assert(is_first_thread(ms, Some(m.event_id), p));
                let ct = thread_at(ms, p);
                assert(ct.thread.insert(0, m).drop_first() =~= ct.thread);
                assert(grew_at(ms, r, p));
            },
            None => {
                assert(r.drop_first() =~= ms);
            },
        },
        _ => {
            assert(r.drop_first() =~= ms);
        },
    }
}

// ---------------------------------------------------------------------------
// Loading a timeline
// ---------------------------------------------------------------------------

/// The latest event of the thread an event heads, as its relations report.
pub open spec fn head_of(ev: TimelineEventView) -> Option<Seq<char>> {
    match ev {
        TimelineEventView::RoomMessage { thread_latest_event, .. } => thread_latest_event,
        TimelineEventView::Other => None,
    }
}

/// The latest event of the thread that `event` heads, as the event's
/// relations report it, paired with 2; none for an event that heads no
/// thread or is not a room message.
pub fn format_head_thread(event: &TimelineEvent) -> (r: Option<(usize, String)>)
    ensures
        match head_of(event@) {
            Some(id) => r is Some && (r->0).0 == 2 && (r->0).1@ == id,
            None => r is None,
        },
{
    match event {
        TimelineEvent::RoomMessage { thread_latest_event, .. } => match thread_latest_event {
            Some(id) => Some((2, id.clone())),
            None => None,
        },
        TimelineEvent::Other => None,
    }
}

/// The heads reported by a batch of events, in order.
pub open spec fn heads_of(events: Seq<TimelineEvent>) -> Seq<Option<Seq<char>>> {
    events.map_values(|e: TimelineEvent| head_of(e@))
}

/// `ms` after merging, in order, the entries `rels` of a batch of events
/// (skipping events that gave no entry), `heads` being what each event
/// reports of the thread it heads.
pub open spec fn merge_all(
    ms: Seq<TimelineRelationView>,
    rels: Seq<Option<TimelineRelationView>>,
    heads: Seq<Option<Seq<char>>>,
) -> Seq<TimelineRelationView>
    decreases rels.len(),
{
    if rels.len() == 0 {
        ms
    } else {
        let prev = merge_all(ms, rels.drop_last(), heads.drop_last());
        match rels.last() {
            Some(r) => merge_step(prev, r, heads.last()),
            None => prev,
        }
    }
}

/// A formatted message keeps its event id, sender and clock reading, and is
/// marked as the user's own exactly when the sender is the logged-in user.
pub proof fn lemma_formatted_fields(
    c: MessageContentView,
    event_id: Seq<char>,
    member: RoomMemberView,
    logged_user_id: Seq<char>,
    time: Seq<char>,
)
    ensures
        formatted_message(c, event_id, member, logged_user_id, time) is Some <==> content_body(c) is Some,
        formatted_message(c, event_id, member, logged_user_id, time) matches Some(m) ==> {
            &&& m.event_id == event_id
            &&& m.sender == member
            &&& m.time == time
            &&& m.body == content_body(c)->0
            &&& (m.origin == EventOrigin::ME <==> member.id == logged_user_id)
        },
{
}

/// Formatting keeps the kind of a message and its name and size: an image
/// is shown as an image, a file as a file, a video as a video, a text as
/// its text or, when it has one, its HTML body. Texts and files are always
/// shown; an image with a plain download address is shown with that address
/// as its source; contents of any other kind are not shown.
pub proof fn lemma_content_keeps_kind(c: MessageContentView)
    ensures
        match c {
            MessageContentView::Image { body, size, media } => {
                &&& content_body(c) is Some ==> (content_body(c)->0 matches TimelineMessageTypeView::Image(f)
                    && f.body == body && f.size == size)
                &&& media matches MediaDataView::Plain { download_uri: Some(u) } ==> content_body(c)
                    == Some(TimelineMessageTypeView::Image(
                    FileContentView { size, body, source: Some(ImageTypeView::URL(u)) },
                ))
            },
            MessageContentView::Text { body, html } => {
                &&& html is None ==> content_body(c) == Some(TimelineMessageTypeView::Text(body))
                &&& html is Some ==> content_body(c) == Some(TimelineMessageTypeView::Html(html->0))
            },
            MessageContentView::File { body, size, media } => content_body(c) matches Some(
                TimelineMessageTypeView::File(f),
            ) && f.body == body && f.size == size && f.source == match media {
                MediaDataView::Plain { download_uri } => match download_uri {
                    Some(u) => Some(ImageTypeView::URL(u)),
                    None => None,
                },
                MediaDataView::Encrypted { download_uri, .. } => match download_uri {
                    Some(u) => Some(ImageTypeView::URL(u)),
                    None => None,
                },
            },
            MessageContentView::Video { body, size, .. } => content_body(c) is Some ==> (content_body(
                c,
            )->0 matches TimelineMessageTypeView::Video(f) && f.body == body && f.size == size),
            MessageContentView::Unsupported => content_body(c) is None,
        },
{
}

/// A reply to a known message carries that message. When the reply's body
/// repeats the quote of an answered image (`> <sender> sent an image.`), or
/// of an answered text that starts with `>` (`> <sender> ` and the trimmed
/// text), the entry shows the reply's body with every occurrence of that
/// quote removed, under the answered event's id, sent by the replying
/// member at the reply's UTC time; otherwise the entry shows the reply's
/// own message unchanged.
pub proof fn lemma_reply_drops_quote(
    n_body: Seq<char>,
    ev: RoomMessageDataView,
    msg: TimelineMessageView,
    member: RoomMemberView,
    logged_user_id: Seq<char>,
    utc: Seq<char>,
    reply_time: Seq<char>,
)
    requires
        timeline_message_at(ev, logged_user_id, reply_time) is Some,
    ensures
        ({
            let r = timeline_message_at(ev, logged_user_id, reply_time)->0;
            let res = relation_at(
                n_body,
                RelationDataView::Reply { replied: Some(ev) },
                msg,
                member,
                logged_user_id,
                utc,
                reply_time,
            );
            let image_quote = "> <"@ + r.sender.id + "> "@ + "sent an image."@;
            &&& res matches Some(TimelineRelationView::Reply(x))
            &&& res->0->Reply_0.reply == Some(r)
            &&& r.body is Image && has_substring(n_body, "sent an image."@) ==> {
                &&& res->0->Reply_0.event.body == TimelineMessageTypeView::Text(
                    replaced(n_body, image_quote, ""@),
                )
                &&& res->0->Reply_0.event.event_id == ev.event_id
                &&& res->0->Reply_0.event.sender == member
                &&& res->0->Reply_0.event.time == utc
            }
            &&& (r.body matches TimelineMessageTypeView::Text(b) && ">"@.is_prefix_of(b)) ==> {
                &&& res->0->Reply_0.event.body == TimelineMessageTypeView::Text(
                    replaced(
                        n_body,
                        "> <"@ + r.sender.id + "> "@ + trimmed(r.body->Text_0),
                        ""@,
                    ),
                )
                &&& res->0->Reply_0.event.event_id == ev.event_id
                &&& res->0->Reply_0.event.sender == member
                &&& res->0->Reply_0.event.time == utc
            }
            &&& !(r.body is Image && has_substring(n_body, "sent an image."@)) && !(
            r.body matches TimelineMessageTypeView::Text(b) && ">"@.is_prefix_of(b))
                ==> res->0->Reply_0.event == msg
        }),
{
}

/// A timeline holding a folded thread (rooted at `id` when given) has a
/// first one.
proof fn lemma_first_thread_exists(ms: Seq<TimelineRelationView>, id: Option<Seq<char>>, i: int)
    requires
        0 <= i < ms.len(),
        is_thread_with(ms[i], id),
    ensures
        exists|p: int| is_first_thread(ms, id, p),
    decreases i,
{
    if forall|j: int| 0 <= j < i ==> !is_thread_with(#[trigger] ms[j], id) {
        assert(is_first_thread(ms, id, i));
    } else {
        let j = choose|j: int| 0 <= j < i && is_thread_with(#[trigger] ms[j], id);
        lemma_first_thread_exists(ms, id, j);
    }
}

/// Whether entry `e` is a folded thread rooted at `id`.
pub open spec fn is_thread_rooted_at(e: TimelineRelationView, id: Seq<char>) -> bool {
    e matches TimelineRelationView::CustomThread(t) && t.event_id == id
}

/// A plain message joins a folded thread only when it is that thread's
/// root. When no folded thread of the timeline is rooted at the message's
/// event id, merging puts the message in front of the unchanged timeline;
/// when the timeline keeps its length, the message went to the front of a
/// folded thread rooted at its own event id.
pub proof fn lemma_plain_message_joins_only_its_thread(
    ms: Seq<TimelineRelationView>,
    m: TimelineMessageView,
    head_latest: Option<Seq<char>>,
)
    ensures
        (forall|i: int| 0 <= i < ms.len() ==> !is_thread_rooted_at(#[trigger] ms[i], m.event_id))
            ==> merge_step(ms, TimelineRelationView::Message(m), head_latest) == seq![
            TimelineRelationView::Message(m),
        ] + ms,
        merge_step(ms, TimelineRelationView::Message(m), head_latest).len() == ms.len() ==> exists|
            p: int,
        |
            0 <= p < ms.len() && is_thread_rooted_at(ms[p], m.event_id) && grew_at(
                ms,
                merge_step(ms, TimelineRelationView::Message(m), head_latest),
                p,
            ) && merge_step(
                ms,
                TimelineRelationView::Message(m),
                head_latest,
            )[p]->CustomThread_0.thread[0] == m,
{
    let r = merge_step(ms, TimelineRelationView::Message(m), head_latest);
    match thread_pos(ms, Some(m.event_id)) {
        Some(p) => {
            assert(is_first_thread(ms, Some(m.event_id), p));
            assert(is_thread_rooted_at(ms[p], m.event_id));
            let ct = thread_at(ms, p);
            assert(ct.thread.insert(0, m).drop_first() =~= ct.thread);
            assert(grew_at(ms, r, p));
        },
        None => {
            assert forall|i: int| 0 <= i < ms.len() implies !is_thread_rooted_at(
                #[trigger] ms[i],
                m.event_id,
            ) by {
                if is_thread_rooted_at(ms[i], m.event_id) {
                    lemma_first_thread_exists(ms, Some(m.event_id), i);
                }
            }
        },
    }
}

/// Loading a batch never drops an entry and adds at most one entry per event;
/// events that give no entry leave the timeline as it was.
pub proof fn lemma_merge_all_len(
    ms: Seq<TimelineRelationView>,
    rels: Seq<Option<TimelineRelationView>>,
    heads: Seq<Option<Seq<char>>>,
)
    requires
        forall|i: int| 0 <= i < rels.len() && (#[trigger] rels[i]) is Some ==> mergeable(rels[i]->0),
    ensures
        ms.len() <= merge_all(ms, rels, heads).len() <= ms.len() + rels.len(),
        (forall|i: int| 0 <= i < rels.len() ==> (#[trigger] rels[i]) is None) ==> merge_all(
            ms,
            rels,
            heads,
        ) == ms,
    decreases rels.len(),
{
    if rels.len() > 0 {
        let init = rels.drop_last();
        assert forall|i: int| 0 <= i < init.len() && (#[trigger] init[i]) is Some implies mergeable(
            init[i]->0,
        ) by {
            assert(init[i] == rels[i]);
        }
        lemma_merge_all_len(ms, init, heads.drop_last());
        let prev = merge_all(ms, init, heads.drop_last());
        match rels.last() {
            Some(r) => {
                assert(rels[rels.len() - 1] is Some);
                lemma_merge_changes_one_place(prev, r, heads.last());
            },
            None => {},
        }
        if forall|i: int| 0 <= i < rels.len() ==> (#[trigger] rels[i]) is None {
            assert(rels[rels.len() - 1] is None);
            assert forall|i: int| 0 <= i < init.len() implies (#[trigger] init[i]) is None by {
                assert(init[i] == rels[i]);
            }
        }
    }
}

/// Every entry an event can become is accepted by `merge_step`.
proof fn lemma_possible_mergeable(
    ev: TimelineEventView,
    logged_user_id: Seq<char>,
    r: Option<TimelineRelationView>,
)
    requires
        possible_relation(ev, logged_user_id, r),
    ensures
        r is Some ==> mergeable(r->0),
{
    let (t1, t2) = choose|t1: Seq<char>, t2: Seq<char>|
        event_readings(ev, t1, t2) && r == event_relation_at(ev, logged_user_id, t1, t2);
    assert(r == event_relation_at(ev, logged_user_id, t1, t2));
}

/// The timeline `old_messages` after the entries of a batch of `events`
/// (as the room returns them, newest first) have been merged in, in order.
/// Each event contributes the entry it can become (see
/// `deserialize_any_timeline_event`) or nothing.
pub fn timeline(
    old_messages: Vec<TimelineRelation>,
    events: Vec<TimelineEvent>,
    logged_user_id: &str,
) -> (r: Vec<TimelineRelation>)
    requires
        forall|i: int| 0 <= i < events.len() ==> event_times_in_range(#[trigger] events@[i]@),
    ensures
        exists|rels: Seq<Option<TimelineRelationView>>|
            {
                &&& rels.len() == events.len()
                &&& forall|i: int|
                    0 <= i < events.len() ==> possible_relation(
                        #[trigger] events@[i]@,
                        logged_user_id@,
                        rels[i],
                    )
                &&& r.deep_view() == merge_all(old_messages.deep_view(), rels, heads_of(events@))
            },
{
    let ghost old_view = old_messages.deep_view();
    let ghost evs = events@;
    let ghost heads = heads_of(evs);
    let mut messages = old_messages;
    let mut pending = events;
    let ghost mut rels: Seq<Option<TimelineRelationView>> = Seq::empty();
    let mut k: usize = 0;
    let total = pending.len();
    assert(evs.skip(0) =~= evs);
    assert(heads.take(0) =~= Seq::<Option<Seq<char>>>::empty());
    while pending.len() > 0
        invariant
            k <= evs.len(),
            evs.len() == total,
            k + pending.len() == evs.len(),
            pending@ == evs.skip(k as int),
            heads == heads_of(evs),
            rels.len() == k,
            forall|i: int| 0 <= i < evs.len() ==> event_times_in_range(#[trigger] evs[i]@),
            forall|i: int|
                0 <= i < k ==> possible_relation(#[trigger] evs[i]@, logged_user_id@, rels[i]),
            messages.deep_view() == merge_all(old_view, rels, heads.take(k as int)),
        decreases pending.len(),
    {
        let ev = pending.remove(0);
        assert(ev == evs[k as int]);
        let head = match &ev {
            TimelineEvent::RoomMessage { thread_latest_event, .. } => clone_opt_string(
                thread_latest_event,
            ),
            TimelineEvent::Other => None,
        };
        assert(head.deep_view() == heads[k as int]);
        let rel = deserialize_any_timeline_event(ev, logged_user_id);
        let ghost rv = rel.deep_view();
        proof {
            lemma_possible_mergeable(evs[k as int]@, logged_user_id@, rv);
        }
        match rel {
            Some(x) => {
                merge_timeline_relation(&mut messages, x, head);
            },
            None => {},
        }
        proof {
            let old_rels = rels;
            rels = rels.push(rv);
            assert(rels.drop_last() =~= old_rels);
            assert(heads.take(k + 1).drop_last() =~= heads.take(k as int));
            assert(pending@ =~= evs.skip(k + 1));
        }
        k = k + 1;
    }
    assert(heads.take(k as int) =~= heads);
    assert(rels.len() == evs.len());
    assert(messages.deep_view() == merge_all(old_view, rels, heads_of(evs)));
    messages
}


/// `r` is the timeline `old` after merging, in order, an entry that each of
/// `events` can become (see `timeline`).
pub open spec fn merged_batch(
    old: Seq<TimelineRelationView>,
    events: Seq<TimelineEvent>,
    logged_user_id: Seq<char>,
    r: Seq<TimelineRelationView>,
) -> bool {
    exists|rels: Seq<Option<TimelineRelationView>>|
        {
            &&& rels.len() == events.len()
            &&& forall|i: int|
                0 <= i < events.len() ==> possible_relation(
                    #[trigger] events[i]@,
                    logged_user_id,
                    rels[i],
                )
            &&& r == merge_all(old, rels, heads_of(events))
        }
}

/// One page of a room's timeline, checked in this order: `RoomNotFound`
/// when the room is not known; `InvalidLimit` when the limit is beyond what
/// the Matrix API carries (2^53 - 1); `MessagesNotFound` when the messages
/// could not be fetched (`fetched` is `None`). Otherwise the token to go on
/// from, as fetched, and `old_messages` with the fetched events merged in
/// (see `timeline`).
pub fn timeline_page(
    room_found: bool,
    limit: u64,
    fetched: Option<(Option<String>, Vec<TimelineEvent>)>,
    old_messages: Vec<TimelineRelation>,
    logged_user_id: &str,
) -> (r: Result<(Option<String>, Vec<TimelineRelation>), TimelineError>)
    requires
        fetched is Some ==> forall|i: int|
            0 <= i < (fetched->0).1.len() ==> event_times_in_range(#[trigger] (fetched->0).1@[i]@),
    ensures
        !room_found ==> r == Err::<(Option<String>, Vec<TimelineRelation>), TimelineError>(
            TimelineError::RoomNotFound,
        ),
        room_found && limit > MAX_SAFE_UINT ==> r == Err::<
            (Option<String>, Vec<TimelineRelation>),
            TimelineError,
        >(TimelineError::InvalidLimit),
        room_found && limit <= MAX_SAFE_UINT && fetched is None ==> r == Err::<
            (Option<String>, Vec<TimelineRelation>),
            TimelineError,
        >(TimelineError::MessagesNotFound),
        room_found && limit <= MAX_SAFE_UINT && fetched is Some ==> r is Ok && (r->Ok_0).0
            == (fetched->0).0 && merged_batch(
            old_messages.deep_view(),
            (fetched->0).1@,
            logged_user_id@,
            (r->Ok_0).1.deep_view(),
        ),
{
    if !room_found {
        return Err(TimelineError::RoomNotFound);
    }
    if let Err(e) = timeline_limit(limit) {
        return Err(e);
    }
    match fetched {
        None => Err(TimelineError::MessagesNotFound),
        Some((end, events)) => {
            let ghost evs = events@;
            let ghost old = old_messages.deep_view();
            let merged = timeline(old_messages, events, logged_user_id);
            assert(merged_batch(old, evs, logged_user_id@, merged.deep_view()));
            Ok((end, merged))
        },
    }
}

} // verus!
