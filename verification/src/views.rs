//! What the chat components show: the classes of buttons, communities and
//! room lists, the cards of a message list, when the list asks for older
//! messages, and what a message menu does.
use vstd::prelude::*;
use vstd::string::*;

use crate::rooms::RoomItem;
use crate::timeline::{
    EventOrigin, TimelineMessage, TimelineMessageType,
    TimelineMessageTypeView, TimelineMessageView, TimelineRelation, TimelineRelationView,
    TimelineThread, TimelineThreadView,
};
use crate::state::{CurrentRoom, FormRoomEvent};
use crate::text::{clone_opt_string, concat2};

verus! {

// ---------------------------------------------------------------------------
// Buttons
// ---------------------------------------------------------------------------

/// How prominent a button is.
#[derive(PartialEq, Eq, Structural, Clone, Copy, Debug)]
pub enum Variant {
    Primary,
    Secondary,
    Tertiary,
}

/// The class of a button variant.
pub open spec fn variant_class(v: Variant) -> Seq<char> {
    match v {
        Variant::Primary => "button--primary"@,
        Variant::Secondary => "button--secondary"@,
        Variant::Tertiary => "button--tertiary"@,
    }
}

/// The class list of a button: its variant, then `button--loading` while a
/// status is shown, else `button--disabled` when disabled.
pub open spec fn button_class_of(v: Variant, disabled: bool, loading: bool) -> Seq<char> {
    "button "@ + variant_class(v) + " "@ + if loading {
        "button--loading"@
    } else if disabled {
        "button--disabled"@
    } else {
        ""@
    }
}

/// How a button is drawn: its classes, whether it is disabled and its label.
pub struct ButtonLook {
    pub class: String,
    pub disabled: bool,
    pub label: String,
}

fn variant_name(v: Variant) -> (r: &'static str)
    ensures
        r@ == variant_class(v),
{
    match v {
        Variant::Primary => "button--primary",
        Variant::Secondary => "button--secondary",
        Variant::Tertiary => "button--tertiary",
    }
}

/// How a button is drawn: while a status is shown it is disabled, marked as
/// loading and labelled with the status; otherwise it shows its text and is
/// disabled as asked.
pub fn button_look(variant: Variant, disabled: bool, status: &Option<String>, text: &str) -> (r:
    ButtonLook)
    ensures
        r.class@ == button_class_of(variant, disabled, status is Some),
        r.disabled == (status is Some || disabled),
        status is Some ==> r.label@ == status->0@,
        status is None ==> r.label@ == text@,
{
    let state = match status {
        Some(_) => "button--loading",
        None => if disabled {
            "button--disabled"
        } else {
            ""
        },
    };
    let with_variant = concat2("button ", variant_name(variant));
    let with_space = concat2(with_variant.as_str(), " ");
    let class = concat2(with_space.as_str(), state);
    match status {
        Some(s) => ButtonLook { class, disabled: true, label: s.clone() },
        None => ButtonLook { class, disabled, label: text.to_owned() },
    }
}

// ---------------------------------------------------------------------------
// Communities, inputs and room lists
// ---------------------------------------------------------------------------

/// The classes of a community tile: the section's (with the extra class,
/// if any) and the content's (with the background).
pub fn community_classes(class: Option<&str>, background: &str) -> (r: (String, String))
    ensures
        r.0@ == "community "@ + match class {
            Some(c) => c@,
            None => ""@,
        },
        r.1@ == "community__content community__content--"@ + background@,
{
    let extra = match class {
        Some(c) => c,
        None => "",
    };
    (concat2("community ", extra), concat2("community__content community__content--", background))
}

/// The type of a message input: `text` unless another is given.
pub fn input_type<'a>(itype: Option<&'a str>) -> (r: &'a str)
    ensures
        match itype {
            Some(t) => r@ == t@,
            None => r@ == "text"@,
        },
{
    match itype {
        Some(t) => t,
        None => "text",
    }
}

/// Whether a message input shows its send button: once something is typed.
pub fn shows_send_button(message: &str) -> (r: bool)
    ensures
        r == (message@.len() > 0),
{
    message.unicode_len() > 0
}

/// The class list of a room list.
pub open spec fn rooms_list_class_of(has_rooms: bool, wrap: bool) -> Seq<char> {
    "rooms-list "@ + (if wrap {
        "room-list--wrap"@
    } else {
        ""@
    }) + " "@ + (if has_rooms {
        ""@
    } else {
        "rooms-list--skeleton"@
    }) + " fade-in"@
}

/// The class list of a room list: wrapped or not, and a skeleton while it
/// has no room.
pub fn rooms_list_class(has_rooms: bool, wrap: bool) -> (r: String)
    ensures
        r@ == rooms_list_class_of(has_rooms, wrap),
{
    let w = if wrap {
        "room-list--wrap"
    } else {
        ""
    };
    let k = if has_rooms {
        ""
    } else {
        "rooms-list--skeleton"
    };
    let a = concat2("rooms-list ", w);
    let b = concat2(a.as_str(), " ");
    let c = concat2(b.as_str(), k);
    concat2(c.as_str(), " fade-in")
}

/// What a room list shows.
#[derive(PartialEq, Eq, Structural, Clone, Copy, Debug)]
pub enum RoomsListContent {
    /// One entry per room.
    Rooms,
    /// Placeholders while the rooms load.
    Skeletons(u8),
    /// Nothing.
    Empty,
}

/// What a room list shows: its rooms, else twenty placeholders while
/// loading, else nothing.
pub fn rooms_list_content(has_rooms: bool, is_loading: bool) -> (r: RoomsListContent)
    ensures
        has_rooms ==> r == RoomsListContent::Rooms,
        !has_rooms && is_loading ==> r == RoomsListContent::Skeletons(20),
        !has_rooms && !is_loading ==> r == RoomsListContent::Empty,
{
    if has_rooms {
        RoomsListContent::Rooms
    } else if is_loading {
        RoomsListContent::Skeletons(20)
    } else {
        RoomsListContent::Empty
    }
}

/// The event sent when a room of a list is picked: the room's id, name and
/// avatar.
pub fn room_event(room: &RoomItem) -> (r: FormRoomEvent)
    ensures
        r.room.id@ == room.id@,
        r.room.name@ == room.name@,
        r.room.avatar_uri.deep_view() == room.avatar_uri.deep_view(),
{
    FormRoomEvent {
        room: CurrentRoom {
            id: room.id.clone(),
            name: room.name.clone(),
            avatar_uri: clone_opt_string(&room.avatar_uri),
        },
    }
}

// ---------------------------------------------------------------------------
// Message lists
// ---------------------------------------------------------------------------

/// The request a message list makes for older messages.
pub struct ListEvent {}

/// The bytes of a file picked to be attached.
pub struct AttachEvent {
    pub value: Vec<u8>,
}

/// 80% of a height, rounded toward zero as integer division does.
pub open spec fn eighty_percent(h: int) -> int {
    if h >= 0 {
        h * 80 / 100
    } else {
        -((-h * 80) / 100)
    }
}

/// Whether a scroll of a message list asks for older messages: the bottom
/// of the viewport (the container's height plus how far it is scrolled up)
/// has reached 80% of the list's height, the list is being scrolled further
/// up than at the last scroll, and nothing is loading.
pub open spec fn loads_more(
    container_height: int,
    scroll_top: int,
    list_height: int,
    old_value: int,
    is_loading: bool,
) -> bool {
    container_height + scroll_top >= eighty_percent(list_height) && scroll_top > old_value
        && !is_loading
}

/// What a scroll of a message list decides: whether to ask for older
/// messages, and the scroll position to compare the next scroll with. The
/// list is laid out bottom up, so the browser reports its scroll offset
/// negated.
pub fn should_load_more(
    container_height: i32,
    scroll_top_raw: i32,
    list_height: i32,
    old_value: i32,
    is_loading: bool,
) -> (r: (bool, i32))
    requires
        scroll_top_raw > i32::MIN,
        i32::MIN <= list_height * 80 <= i32::MAX,
        i32::MIN <= container_height - scroll_top_raw <= i32::MAX,
    ensures
        r.0 == loads_more(
            container_height as int,
            -scroll_top_raw,
            list_height as int,
            old_value as int,
            is_loading,
        ),
        r.1 == -scroll_top_raw,
{
    assert(scroll_top_raw * -1 == -scroll_top_raw) by (nonlinear_arith);
    let scroll_top = scroll_top_raw * -1;
    let scrolled_top = list_height * 80 / 100;
    let load = container_height + scroll_top >= scrolled_top && scroll_top > old_value && !is_loading;
    (load, scroll_top)
}

/// A sender shown on a thread preview.
pub struct Sender {
    pub avatar_uri: Option<String>,
    pub display_name: String,
}

pub struct SenderView {
    pub avatar_uri: Option<Seq<char>>,
    pub display_name: Seq<char>,
}

impl View for Sender {
    type V = SenderView;

    open spec fn view(&self) -> SenderView {
        SenderView { avatar_uri: self.avatar_uri.deep_view(), display_name: self.display_name@ }
    }
}

impl DeepView for Sender {
    type V = SenderView;

    open spec fn deep_view(&self) -> SenderView {
        self@
    }
}

/// The preview of a folded thread: the first senders and how many answers
/// follow the first message.
pub struct ThreadPreview {
    pub meta_senders: Vec<Sender>,
    pub count: i8,
}

pub struct ThreadPreviewView {
    pub meta_senders: Seq<SenderView>,
    pub count: i8,
}

impl View for ThreadPreview {
    type V = ThreadPreviewView;

    open spec fn view(&self) -> ThreadPreviewView {
        ThreadPreviewView { meta_senders: self.meta_senders.deep_view(), count: self.count }
    }
}

/// The sender shown for a message.
pub open spec fn sender_of(m: TimelineMessageView) -> SenderView {
    SenderView { avatar_uri: m.sender.avatar_uri, display_name: m.sender.name }
}

/// The preview of a thread: the senders of its first two messages (fewer
/// when it has fewer) and its number of messages after the first, as an
/// `i8` (wrapping past 127).
pub open spec fn preview_of(thread: Seq<TimelineMessageView>) -> ThreadPreviewView {
    let n = if thread.len() < 2 {
        thread.len()
    } else {
        2
    };
    ThreadPreviewView {
        meta_senders: Seq::new(n, |i: int| sender_of(thread[i])),
        count: (thread.len() - 1) as i8,
    }
}

fn sender_for(m: &TimelineMessage) -> (r: Sender)
    ensures
        r@ == sender_of(m@),
{
    Sender {
        avatar_uri: clone_opt_string(&m.sender.avatar_uri),
        display_name: m.sender.name.clone(),
    }
}

/// The preview of a non-empty thread (see `preview_of`).
pub fn thread_preview(thread: &Vec<TimelineMessage>) -> (r: ThreadPreview)
    requires
        thread.len() > 0,
    ensures
        r@ == preview_of(thread.deep_view()),
{
    let mut senders: Vec<Sender> = Vec::new();
    let n = thread.len();
    let mut i: usize = 0;
    while i < n && i < 2
        invariant
            n == thread.len(),
            i <= n,
            i <= 2,
            senders.deep_view() == Seq::new(i as nat, |k: int| sender_of(thread.deep_view()[k])),
        decreases n - i,
    {
        let ghost before = senders.deep_view();
        assert(senders.deep_view().len() == senders@.len());
        let s = sender_for(&thread[i]);
        senders.push(s);
        proof {
            assert(senders.deep_view().len() == i + 1);
            assert(senders.deep_view()[i as int] == sender_of(thread.deep_view()[i as int]));
            assert forall|k: int| 0 <= k < i implies senders.deep_view()[k] == sender_of(
                thread.deep_view()[k],
            ) by {
                assert(senders.deep_view()[k] == before[k]);
            }
            assert(senders.deep_view() =~= Seq::new(
                (i + 1) as nat,
                |k: int| sender_of(thread.deep_view()[k]),
            ));
        }
        i = i + 1;
    }
    let count = #[verifier::truncate] ((n - 1) as i8);
    let r = ThreadPreview { meta_senders: senders, count };
    assert(r@.meta_senders =~= preview_of(thread.deep_view()).meta_senders);
    r
}

/// The message a card answers, as the card shows it.
pub struct MessageReply {
    pub content: TimelineMessageType,
    pub display_name: String,
    pub avatar_uri: Option<String>,
}

pub struct MessageReplyView {
    pub content: TimelineMessageTypeView,
    pub display_name: Seq<char>,
    pub avatar_uri: Option<Seq<char>>,
}

impl View for MessageReply {
    type V = MessageReplyView;

    open spec fn view(&self) -> MessageReplyView {
        MessageReplyView {
            content: self.content@,
            display_name: self.display_name@,
            avatar_uri: self.avatar_uri.deep_view(),
        }
    }
}

/// A message as a list draws it.
pub struct MessageCard {
    pub id: i64,
    pub event_id: String,
    pub display_name: String,
    pub avatar_uri: Option<String>,
    pub content: TimelineMessageType,
    pub reply: Option<MessageReply>,
    pub origin: EventOrigin,
    pub time: String,
    pub thread: Option<ThreadPreview>,
}

pub struct MessageCardView {
    pub id: i64,
    pub event_id: Seq<char>,
    pub display_name: Seq<char>,
    pub avatar_uri: Option<Seq<char>>,
    pub content: TimelineMessageTypeView,
    pub reply: Option<MessageReplyView>,
    pub origin: EventOrigin,
    pub time: Seq<char>,
    pub thread: Option<ThreadPreviewView>,
}

impl View for MessageCard {
    type V = MessageCardView;

    open spec fn view(&self) -> MessageCardView {
        MessageCardView {
            id: self.id,
            event_id: self.event_id@,
            display_name: self.display_name@,
            avatar_uri: self.avatar_uri.deep_view(),
            content: self.content@,
            reply: match self.reply {
                Some(r) => Some(r@),
                None => None,
            },
            origin: self.origin,
            time: self.time@,
            thread: match self.thread {
                Some(t) => Some(t@),
                None => None,
            },
        }
    }
}

/// The card of message `m` at position `i`, answering `reply` and
/// previewing `thread`.
pub open spec fn card_for(
    m: TimelineMessageView,
    i: int,
    reply: Option<MessageReplyView>,
    thread: Option<ThreadPreviewView>,
) -> MessageCardView {
    MessageCardView {
        id: i as i64,
        event_id: m.event_id,
        display_name: m.sender.name,
        avatar_uri: m.sender.avatar_uri,
        content: m.body,
        reply,
        origin: m.origin,
        time: m.time,
        thread,
    }
}

/// How a card shows the message it answers.
pub open spec fn reply_view_of(m: TimelineMessageView) -> MessageReplyView {
    MessageReplyView { content: m.body, display_name: m.sender.name, avatar_uri: m.sender.avatar_uri }
}

/// The card a timeline entry at position `i` is drawn as: a message as
/// itself; a reply as its message, showing the answered message when known;
/// a folded thread as its first message with a preview of the thread; a
/// thread message is not drawn on its own.
pub open spec fn card_of(entry: TimelineRelationView, i: int) -> Option<MessageCardView> {
    match entry {
        TimelineRelationView::Message(m) => Some(card_for(m, i, None, None)),
        TimelineRelationView::Reply(r) => Some(
            card_for(
                r.event,
                i,
                match r.reply {
                    Some(x) => Some(reply_view_of(x)),
                    None => None,
                },
                None,
            ),
        ),
        TimelineRelationView::CustomThread(t) => Some(
            card_for(t.thread[0], i, None, Some(preview_of(t.thread))),
        ),
        TimelineRelationView::Thread(_) => None,
    }
}

/// The message an entry is drawn as: a message itself, the message of a
/// reply, the first message of a folded thread.
pub open spec fn shown_message(entry: TimelineRelationView) -> TimelineMessageView {
    match entry {
        TimelineRelationView::Message(m) => m,
        TimelineRelationView::Reply(r) => r.event,
        TimelineRelationView::CustomThread(t) => t.thread[0],
        TimelineRelationView::Thread(t) => t.thread[0],
    }
}

/// A card shows the message its entry is drawn as: its event id, sender's
/// name and avatar, content, origin (the user's own or someone else's) and
/// clock reading, under the entry's position. Only a reply carries an
/// answered message, only a folded thread a preview; a loose thread
/// message has no card.
pub proof fn lemma_card_shows_message(entry: TimelineRelationView, i: int)
    ensures
        card_of(entry, i) is None <==> entry is Thread,
        card_of(entry, i) matches Some(c) ==> {
            &&& c.id == i as i64
            &&& c.event_id == shown_message(entry).event_id
            &&& c.display_name == shown_message(entry).sender.name
            &&& c.avatar_uri == shown_message(entry).sender.avatar_uri
            &&& c.content == shown_message(entry).body
            &&& c.origin == shown_message(entry).origin
            &&& c.time == shown_message(entry).time
            &&& (c.reply is Some ==> entry is Reply)
            &&& (c.thread is Some <==> entry is CustomThread)
        },
{
}

/// A timeline entry that can be drawn: a folded thread holds a message.
pub open spec fn drawable(entry: TimelineRelationView) -> bool {
    entry is CustomThread ==> entry->CustomThread_0.thread.len() > 0
}

fn card(
    m: &TimelineMessage,
    i: usize,
    reply: Option<MessageReply>,
    thread: Option<ThreadPreview>,
) -> (r: MessageCard)
    ensures
        r@ == card_for(
            m@,
            i as int,
            match reply {
                Some(x) => Some(x@),
                None => None,
            },
            match thread {
                Some(t) => Some(t@),
                None => None,
            },
        ),
{
    MessageCard {
        id: #[verifier::truncate] (i as i64),
        event_id: m.event_id.clone(),
        display_name: m.sender.name.clone(),
        avatar_uri: clone_opt_string(&m.sender.avatar_uri),
        content: m.body.clone(),
        reply,
        origin: m.origin,
        time: m.time.clone(),
        thread,
    }
}

/// The card a timeline entry at position `i` is drawn as (see `card_of`).
pub fn message_card(entry: &TimelineRelation, i: usize) -> (r: Option<MessageCard>)
    requires
        drawable(entry@),
    ensures
        match r {
            Some(c) => card_of(entry@, i as int) == Some(c@),
            None => card_of(entry@, i as int) is None,
        },
{
    match entry {
        TimelineRelation::Message(m) => Some(card(m, i, None, None)),
        TimelineRelation::Reply(r) => {
            let answered = match &r.reply {
                Some(x) => Some(
                    MessageReply {
                        content: x.body.clone(),
                        display_name: x.sender.name.clone(),
                        avatar_uri: clone_opt_string(&x.sender.avatar_uri),
                    },
                ),
                None => None,
            };
            Some(card(&r.event, i, answered, None))
        },
        TimelineRelation::CustomThread(t) => {
            let preview = thread_preview(&t.thread);
            Some(card(&t.thread[0], i, None, Some(preview)))
        },
        TimelineRelation::Thread(_) => None,
    }
}

// ---------------------------------------------------------------------------
// Message menus
// ---------------------------------------------------------------------------

/// What a message menu offers.
#[derive(PartialEq, Eq, Structural, Clone, Copy, Debug)]
pub enum MenuOption {
    Download,
    Reply,
    Close,
    ShowThread,
    CreateThread,
}

/// The message being answered, as the input shows it.
pub struct ReplyingTo {
    pub event_id: String,
    pub content: TimelineMessageType,
    pub display_name: String,
    pub avatar_uri: Option<String>,
    pub origin: EventOrigin,
}

pub struct ReplyingToView {
    pub event_id: Seq<char>,
    pub content: TimelineMessageTypeView,
    pub display_name: Seq<char>,
    pub avatar_uri: Option<Seq<char>>,
    pub origin: EventOrigin,
}

impl View for ReplyingTo {
    type V = ReplyingToView;

    open spec fn view(&self) -> ReplyingToView {
        ReplyingToView {
            event_id: self.event_id@,
            content: self.content@,
            display_name: self.display_name@,
            avatar_uri: self.avatar_uri.deep_view(),
            origin: self.origin,
        }
    }
}

/// What picking a menu option does to the chat.
pub enum ListAction {
    /// Nothing changes.
    Nothing,
    /// The input now answers this message.
    ReplyTo(ReplyingTo),
    /// This thread opens beside the room.
    OpenThread(TimelineThread),
}

pub enum ListActionView {
    Nothing,
    ReplyTo(ReplyingToView),
    OpenThread(TimelineThreadView),
}

impl View for ListAction {
    type V = ListActionView;

    open spec fn view(&self) -> ListActionView {
        match self {
            ListAction::Nothing => ListActionView::Nothing,
            ListAction::ReplyTo(r) => ListActionView::ReplyTo(r@),
            ListAction::OpenThread(t) => ListActionView::OpenThread(t@),
        }
    }
}

/// Answering event `event_id` whose shown message is `m`.
pub open spec fn replying_to_of(event_id: Seq<char>, m: TimelineMessageView) -> ReplyingToView {
    ReplyingToView {
        event_id,
        content: m.body,
        display_name: m.sender.name,
        avatar_uri: m.sender.avatar_uri,
        origin: m.origin,
    }
}

/// A new thread started at message `m`: rooted at it, holding it alone.
pub open spec fn thread_started_at(m: TimelineMessageView) -> TimelineThreadView {
    TimelineThreadView { event_id: m.event_id, thread: seq![m], latest_event: m.event_id, count: 0 }
}

/// What a menu option does on a timeline entry: on a message, answer it or
/// start a thread at it; on a reply, answer it; on a folded thread, answer
/// its root (showing its first message) or open it; anything else does
/// nothing.
pub open spec fn menu_action(entry: TimelineRelationView, option: MenuOption) -> ListActionView {
    match entry {
        TimelineRelationView::Message(m) => match option {
            MenuOption::Reply => ListActionView::ReplyTo(replying_to_of(m.event_id, m)),
            MenuOption::CreateThread => ListActionView::OpenThread(thread_started_at(m)),
            _ => ListActionView::Nothing,
        },
        TimelineRelationView::Reply(r) => match option {
            MenuOption::Reply => ListActionView::ReplyTo(replying_to_of(r.event.event_id, r.event)),
            _ => ListActionView::Nothing,
        },
        TimelineRelationView::CustomThread(t) => match option {
            MenuOption::Reply => ListActionView::ReplyTo(replying_to_of(t.event_id, t.thread[0])),
            MenuOption::ShowThread => ListActionView::OpenThread(t),
            _ => ListActionView::Nothing,
        },
        TimelineRelationView::Thread(_) => ListActionView::Nothing,
    }
}

fn replying_to(event_id: &String, m: &TimelineMessage) -> (r: ReplyingTo)
    ensures
        r@ == replying_to_of(event_id@, m@),
{
    ReplyingTo {
        event_id: event_id.clone(),
        content: m.body.clone(),
        display_name: m.sender.name.clone(),
        avatar_uri: clone_opt_string(&m.sender.avatar_uri),
        origin: m.origin,
    }
}

/// What a menu option does on a timeline entry (see `menu_action`).
pub fn relation_menu_action(entry: &TimelineRelation, option: MenuOption) -> (r: ListAction)
    requires
        drawable(entry@),
    ensures
        r@ == menu_action(entry@, option),
{
    match entry {
        TimelineRelation::Message(m) => match option {
            MenuOption::Reply => ListAction::ReplyTo(replying_to(&m.event_id, m)),
            MenuOption::CreateThread => {
                let mut thread: Vec<TimelineMessage> = Vec::new();
                thread.push(m.clone());
                let t = TimelineThread {
                    event_id: m.event_id.clone(),
                    thread,
                    latest_event: m.event_id.clone(),
                    count: 0,
                };
                assert(t@.thread =~= seq![m@]);
                ListAction::OpenThread(t)
            },
            _ => ListAction::Nothing,
        },
        TimelineRelation::Reply(r) => match option {
            MenuOption::Reply => ListAction::ReplyTo(replying_to(&r.event.event_id, &r.event)),
            _ => ListAction::Nothing,
        },
        TimelineRelation::CustomThread(t) => match option {
            MenuOption::Reply => ListAction::ReplyTo(replying_to(&t.event_id, &t.thread[0])),
            MenuOption::ShowThread => ListAction::OpenThread(t.clone()),
            _ => ListAction::Nothing,
        },
        TimelineRelation::Thread(_) => ListAction::Nothing,
    }
}

/// What a menu option does on a message of an open thread: answering it is
/// the only action.
pub fn thread_message_menu_action(message: &TimelineMessage, option: MenuOption) -> (r: ListAction)
    ensures
        option == MenuOption::Reply ==> r@ == ListActionView::ReplyTo(
            replying_to_of(message@.event_id, message@),
        ),
        option != MenuOption::Reply ==> r@ == ListActionView::Nothing,
{
    match option {
        MenuOption::Reply => ListAction::ReplyTo(replying_to(&message.event_id, message)),
        _ => ListAction::Nothing,
    }
}

} // verus!
