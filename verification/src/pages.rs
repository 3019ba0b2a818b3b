//! What the pages decide: the chat list's rooms and search, which login
//! form to show and how a login attempt went, which page the application
//! shows, how a device verification goes on, and the message each failure
//! is reported with.
use vstd::prelude::*;
use vstd::string::*;

use crate::auth::{CacheLogin, LogoutError};
use crate::boundary::{lowercased, to_lowercase};
use crate::messaging::LeaveRoomError;
use crate::rooms::{Conversations, RoomItem, RoomItemView, SpaceRoomsView};
use crate::state::{BeforeSession, FormLoginEvent, LoggedInStatus};
use crate::text::{after_first, after_first_of, contains_str, equal_str, has_substring};
use crate::views::ReplyingTo;

verus! {

// ---------------------------------------------------------------------------
// Failures and their messages
// ---------------------------------------------------------------------------

/// Why the chat list could not be loaded.
#[derive(PartialEq, Eq, Structural, Clone, Copy, Debug)]
pub enum ChatListError {
    SessionNotFound,
    InvitedRooms,
    PublicRooms,
}

/// The translation key of the message for a chat list failure.
pub fn chat_list_error_key(e: ChatListError) -> (r: &'static str)
    ensures
        e == ChatListError::SessionNotFound ==> r@ == "chat.session.error.not_found"@,
        e == ChatListError::PublicRooms ==> r@ == "chat.list.errors.public_rooms"@,
        e == ChatListError::InvitedRooms ==> r@ == "chat.list.errors.invited_rooms"@,
{
    match e {
        ChatListError::SessionNotFound => "chat.session.error.not_found",
        ChatListError::PublicRooms => "chat.list.errors.public_rooms",
        ChatListError::InvitedRooms => "chat.list.errors.invited_rooms",
    }
}

/// The translation key of the message for a failure to leave a room.
pub fn leave_room_error_key(e: LeaveRoomError) -> (r: &'static str)
    ensures
        e is InvalidRoomId ==> r@ == "chat.common.error.room_id"@,
        e is RoomNotFound ==> r@ == "chat.common.error.room_not_found"@,
        e is Failed ==> r@ == "chat.actions.leave"@,
{
    match e {
        LeaveRoomError::InvalidRoomId => "chat.common.error.room_id",
        LeaveRoomError::RoomNotFound => "chat.common.error.room_not_found",
        LeaveRoomError::Failed => "chat.actions.leave",
    }
}

/// The translation key of the message for a failure to log out.
pub fn logout_error_key(e: LogoutError) -> (r: &'static str)
    ensures
        e != LogoutError::RemoveSession ==> r@ == "logout.error.server"@,
        e == LogoutError::RemoveSession ==> r@ == "logout.chat.common.error.default_server"@,
{
    match e {
        LogoutError::Failed | LogoutError::DefaultClient => "logout.error.server",
        LogoutError::RemoveSession => "logout.chat.common.error.default_server",
    }
}

/// Why the application could not start a session.
#[derive(PartialEq, Eq, Structural, Clone, Copy, Debug)]
pub enum MainError {
    DefaultServer,
    RestoreFailed,
    SyncFailed,
}

/// The translation key of the message for a start-up failure.
pub fn main_error_key(e: MainError) -> (r: &'static str)
    ensures
        e == MainError::DefaultServer ==> r@ == "chat.common.error.default_server"@,
        e == MainError::RestoreFailed ==> r@ == "main.errors.restore"@,
        e == MainError::SyncFailed ==> r@ == "chat.common.error.sync"@,
{
    match e {
        MainError::DefaultServer => "chat.common.error.default_server",
        MainError::RestoreFailed => "main.errors.restore",
        MainError::SyncFailed => "chat.common.error.sync",
    }
}

/// Why a device verification step failed.
#[derive(PartialEq, Eq, Structural, Clone, Copy, Debug)]
pub enum VerificationError {
    FlowNotFound,
    SasAcceptFailed,
    SasConfirmFailed,
    SasCancelFailed,
    SyncFailed,
}

/// The translation key of the message for a verification failure.
pub fn verification_error_key(e: VerificationError) -> (r: &'static str)
    ensures
        e == VerificationError::FlowNotFound ==> r@ == "verify.errors.flow_not_found"@,
        e == VerificationError::SasAcceptFailed ==> r@ == "verify.errors.sas_accept"@,
        e == VerificationError::SasConfirmFailed ==> r@ == "verify.errors.sas_confirm"@,
        e == VerificationError::SasCancelFailed ==> r@ == "verify.errors.sas_cancel"@,
        e == VerificationError::SyncFailed ==> r@ == "verify.errors.sas_sync"@,
{
    match e {
        VerificationError::FlowNotFound => "verify.errors.flow_not_found",
        VerificationError::SasAcceptFailed => "verify.errors.sas_accept",
        VerificationError::SasConfirmFailed => "verify.errors.sas_confirm",
        VerificationError::SasCancelFailed => "verify.errors.sas_cancel",
        VerificationError::SyncFailed => "verify.errors.sas_sync",
    }
}

/// Why a previewed room could not be joined.
#[derive(PartialEq, Eq, Structural, Clone, Copy, Debug)]
pub enum PreviewRoomError {
    InvalidRoomId,
    InvitationNotFound,
    AcceptFailed,
}

// ---------------------------------------------------------------------------
// The chat list
// ---------------------------------------------------------------------------

/// The rooms listed under the spaces, space after space.
pub open spec fn space_rooms(spaces: Seq<SpaceRoomsView>) -> Seq<RoomItemView>
    decreases spaces.len(),
{
    if spaces.len() == 0 {
        Seq::empty()
    } else {
        space_rooms(spaces.drop_last()) + spaces.last().rooms
    }
}

/// Appends copies of `items` to `out`.
fn append_rooms(out: &mut Vec<RoomItem>, items: &Vec<RoomItem>)
    ensures
        final(out).deep_view() == old(out).deep_view() + items.deep_view(),
{
    let ghost base = out.deep_view();
    let n = items.len();
    let mut i: usize = 0;
    assert(base + items.deep_view().take(0) =~= base);
    while i < n
        invariant
            n == items.len(),
            i <= n,
            out.deep_view() == base + items.deep_view().take(i as int),
        decreases n - i,
    {
        let ghost before = out.deep_view();
        out.push(items[i].clone());
        assert(out.deep_view() =~= before.push(items.deep_view()[i as int]));
        assert(items.deep_view().take(i + 1) =~= items.deep_view().take(i as int).push(
            items.deep_view()[i as int],
        ));
        i = i + 1;
    }
    assert(items.deep_view().take(n as int) =~= items.deep_view());
}

/// Every room the chat list can search: the rooms of each space, space
/// after space, then the rooms outside the spaces.
pub fn all_rooms(conversations: &Conversations) -> (r: Vec<RoomItem>)
    ensures
        r.deep_view() == space_rooms(conversations@.spaces) + conversations@.rooms,
{
    let ghost sv = conversations@.spaces;
    let mut out: Vec<RoomItem> = Vec::new();
    let n = conversations.spaces.len();
    let mut i: usize = 0;
    assert(sv.take(0) =~= Seq::<SpaceRoomsView>::empty());
    while i < n
        invariant
            n == conversations.spaces.len(),
            sv == conversations@.spaces,
            i <= n,
            out.deep_view() == space_rooms(sv.take(i as int)),
        decreases n - i,
    {
        append_rooms(&mut out, &conversations.spaces[i].rooms);
        assert(sv.take(i + 1).drop_last() =~= sv.take(i as int));
        assert(conversations.spaces[i as int].rooms.deep_view() == sv[i as int].rooms);
        i = i + 1;
    }
    assert(sv.take(n as int) =~= sv);
    append_rooms(&mut out, &conversations.rooms);
    out
}

/// A room whose name holds the search pattern, ignoring case.
pub open spec fn name_matches(pattern: Seq<char>) -> spec_fn(RoomItemView) -> bool {
    |r: RoomItemView| has_substring(lowercased(r.name), lowercased(pattern))
}

/// The rooms the chat list shows for a search: with a pattern, the rooms
/// among all whose name holds it, ignoring case; without one, the joined
/// rooms of the selected space.
pub open spec fn searched_rooms(
    all: Seq<RoomItemView>,
    joined: Seq<RoomItemView>,
    pattern: Seq<char>,
) -> Seq<RoomItemView> {
    if pattern.len() > 0 {
        all.filter(name_matches(pattern))
    } else {
        joined
    }
}

/// The rooms the chat list shows for a search (see `searched_rooms`).
pub fn search_rooms(all: &Vec<RoomItem>, joined: &Vec<RoomItem>, pattern: &str) -> (r: Vec<
    RoomItem,
>)
    ensures
        r.deep_view() == searched_rooms(all.deep_view(), joined.deep_view(), pattern@),
{
    let mut out: Vec<RoomItem> = Vec::new();
    if pattern.unicode_len() == 0 {
        append_rooms(&mut out, joined);
        assert(out.deep_view() =~= joined.deep_view());
        return out;
    }
    let ghost av = all.deep_view();
    let ghost pred = name_matches(pattern@);
    let needle = to_lowercase(pattern);
    let n = all.len();
    let mut i: usize = 0;
    assert(av.take(0) =~= Seq::<RoomItemView>::empty());
    assert(Seq::<RoomItemView>::empty().filter(pred) =~= Seq::<RoomItemView>::empty()) by {
        reveal_with_fuel(Seq::<_>::filter, 1);
    }
    while i < n
        invariant
            n == all.len(),
            av == all.deep_view(),
            pred == name_matches(pattern@),
            needle@ == lowercased(pattern@),
            i <= n,
            out.deep_view() == av.take(i as int).filter(pred),
        decreases n - i,
    {
        let room = &all[i];
        assert(av.take(i + 1) =~= av.take(i as int).push(av[i as int]));
        proof {
            av.take(i as int).lemma_filter_push(av[i as int], pred);
        }
        let name = to_lowercase(room.name.as_str());
        if contains_str(name.as_str(), needle.as_str()) {
            let ghost before = out.deep_view();
            out.push(room.clone());
            assert(out.deep_view() =~= before.push(av[i as int]));
        }
        i = i + 1;
    }
    assert(av.take(n as int) =~= av);
    out
}

/// A search with a pattern shows a room exactly when it is one of all the
/// rooms and its name holds the pattern, ignoring case; a search without a
/// pattern shows the joined rooms.
pub proof fn lemma_search_shows_matching(
    all: Seq<RoomItemView>,
    joined: Seq<RoomItemView>,
    pattern: Seq<char>,
    r: RoomItemView,
)
    ensures
        pattern.len() > 0 ==> (searched_rooms(all, joined, pattern).contains(r) <==> all.contains(r)
            && has_substring(lowercased(r.name), lowercased(pattern))),
        pattern.len() == 0 ==> searched_rooms(all, joined, pattern) == joined,
{
    if pattern.len() > 0 {
        let pred = name_matches(pattern);
        if all.filter(pred).contains(r) {
            all.lemma_filter_contains_rev(pred, r);
            let i = choose|i: int| 0 <= i < all.filter(pred).len() && all.filter(pred)[i] == r;
            all.lemma_filter_pred(pred, i);
        }
        if all.contains(r) && pred(r) {
            let i = choose|i: int| 0 <= i < all.len() && all[i] == r;
            all.lemma_filter_contains(pred, i);
        }
    }
}

/// Whether `rooms` holds a room with id `id`.
pub fn holds_room(rooms: &Vec<RoomItem>, id: &str) -> (r: bool)
    ensures
        r == exists|k: int| 0 <= k < rooms.len() && (#[trigger] rooms.deep_view()[k]).id == id@,
{
    let n = rooms.len();
    let mut i: usize = 0;
    while i < n
        invariant
            n == rooms.len(),
            i <= n,
            forall|k: int| 0 <= k < i ==> (#[trigger] rooms.deep_view()[k]).id != id@,
        decreases n - i,
    {
        if equal_str(rooms[i].id.as_str(), id) {
            assert(rooms.deep_view()[i as int].id == id@);
            return true;
        }
        i = i + 1;
    }
    false
}

/// What the spaces bar shows.
#[derive(PartialEq, Eq, Structural, Clone, Copy, Debug)]
pub enum SpacesBar {
    /// The home entry and one entry per space.
    Spaces,
    /// Placeholders while the spaces load.
    Skeletons(u8),
    /// Nothing.
    Empty,
}

/// What the spaces bar shows: the spaces when there are any, else five
/// placeholders while loading, else nothing.
pub fn spaces_bar(has_spaces: bool, is_loading: bool) -> (r: SpacesBar)
    ensures
        has_spaces ==> r == SpacesBar::Spaces,
        !has_spaces && is_loading ==> r == SpacesBar::Skeletons(5),
        !has_spaces && !is_loading ==> r == SpacesBar::Empty,
{
    if has_spaces {
        SpacesBar::Spaces
    } else if is_loading {
        SpacesBar::Skeletons(5)
    } else {
        SpacesBar::Empty
    }
}

/// What the chat list shows beside the rooms.
#[derive(PartialEq, Eq, Structural, Clone, Copy, Debug)]
pub enum ChatListPanel {
    PublicRooms,
    PreviewRoom,
    ActiveRoom,
    Nothing,
}

/// What the chat list shows beside the rooms: the public directory when
/// it is open, else the previewed room, else the open room (one with a
/// name), else nothing.
pub fn chat_list_panel(public_shown: bool, preview_is_none: bool, room_name: &str) -> (r:
    ChatListPanel)
    ensures
        public_shown ==> r == ChatListPanel::PublicRooms,
        !public_shown && !preview_is_none ==> r == ChatListPanel::PreviewRoom,
        !public_shown && preview_is_none && room_name@.len() > 0 ==> r == ChatListPanel::ActiveRoom,
        !public_shown && preview_is_none && room_name@.len() == 0 ==> r == ChatListPanel::Nothing,
{
    if public_shown {
        ChatListPanel::PublicRooms
    } else if !preview_is_none {
        ChatListPanel::PreviewRoom
    } else if room_name.unicode_len() > 0 {
        ChatListPanel::ActiveRoom
    } else {
        ChatListPanel::Nothing
    }
}

// ---------------------------------------------------------------------------
// Sending from a room
// ---------------------------------------------------------------------------

/// A message to send to a room.
pub struct MessageItem {
    pub room_id: String,
    pub msg: String,
    pub reply_to: Option<String>,
    pub send_to_thread: bool,
}

/// The message sent from a room's input: to the open room, answering the
/// message being answered, if any.
pub fn message_item(room_id: &str, msg: String, replying: &Option<ReplyingTo>, send_to_thread: bool) -> (r:
    MessageItem)
    ensures
        r.room_id@ == room_id@,
        r.msg == msg,
        r.reply_to.deep_view() == match replying {
            Some(x) => Some(x.event_id@),
            None => None::<Seq<char>>,
        },
        r.send_to_thread == send_to_thread,
{
    let reply_to = match replying {
        Some(x) => Some(x.event_id.clone()),
        None => None,
    };
    MessageItem { room_id: room_id.to_owned(), msg, reply_to, send_to_thread }
}

// ---------------------------------------------------------------------------
// Logging in
// ---------------------------------------------------------------------------

/// The server a user name names: what follows its first `:`, if any.
pub fn login_server(username: &str) -> (r: Option<String>)
    ensures
        r.deep_view() == after_first(username@, ':'),
{
    after_first_of(username, ':')
}

/// How a failed login is reported.
#[derive(PartialEq, Eq, Structural, Clone, Copy, Debug)]
pub enum LoginFailure {
    InvalidCredentials,
    Unknown,
}

/// The error text of a login refused for a wrong user name or password.
pub open spec fn forbidden_login_text() -> Seq<char> {
    "the server returned an error: [403 / M_FORBIDDEN] Invalid username or password"@
}

/// How a failed login is reported: as invalid credentials when the
/// server's error reads exactly as a refused user name or password, as an
/// unknown error otherwise.
pub fn login_failure(error_text: &str) -> (r: LoginFailure)
    ensures
        error_text@ == forbidden_login_text() ==> r == LoginFailure::InvalidCredentials,
        error_text@ != forbidden_login_text() ==> r == LoginFailure::Unknown,
{
    if equal_str(
        error_text,
        "the server returned an error: [403 / M_FORBIDDEN] Invalid username or password",
    ) {
        LoginFailure::InvalidCredentials
    } else {
        LoginFailure::Unknown
    }
}

/// Where the login page starts from.
#[derive(PartialEq, Eq, Structural, Clone, Copy, Debug)]
pub enum LoginFrom {
    SavedData,
    FullForm,
}

/// Where the login page starts from: the saved login when there is one,
/// else the full form.
pub fn login_from(is_storage_data: bool) -> (r: LoginFrom)
    ensures
        is_storage_data ==> r == LoginFrom::SavedData,
        !is_storage_data ==> r == LoginFrom::FullForm,
{
    if is_storage_data {
        LoginFrom::SavedData
    } else {
        LoginFrom::FullForm
    }
}

/// Which login form the page shows.
#[derive(PartialEq, Eq, Structural, Clone, Copy, Debug)]
pub enum LoginScreen {
    /// The password alone, for the saved user.
    Unlock,
    /// User name and password.
    Credentials,
    /// No form.
    Nothing,
}

/// Which login form the page shows: the unlock form when a saved login
/// waits for its first attempt or the page started from it; else the full
/// form while the user name or password is missing or the page started
/// from the full form; else none.
pub fn login_screen(
    is_storage_data: bool,
    status: &LoggedInStatus,
    from: LoginFrom,
    username_set: bool,
    password_set: bool,
) -> (r: LoginScreen)
    ensures
        (is_storage_data && *status is Start) || from == LoginFrom::SavedData ==> r
            == LoginScreen::Unlock,
        !((is_storage_data && *status is Start) || from == LoginFrom::SavedData) && (!username_set
            || !password_set || from == LoginFrom::FullForm) ==> r == LoginScreen::Credentials,
        !((is_storage_data && *status is Start) || from == LoginFrom::SavedData) && !(!username_set
            || !password_set || from == LoginFrom::FullForm) ==> r == LoginScreen::Nothing,
{
    let starting = match status {
        LoggedInStatus::Start => true,
        _ => false,
    };
    if (is_storage_data && starting) || (status.has_status() && from == LoginFrom::SavedData) {
        LoginScreen::Unlock
    } else if (!username_set || !password_set) || (status.has_status() && from
        == LoginFrom::FullForm) {
        LoginScreen::Credentials
    } else {
        LoginScreen::Nothing
    }
}

/// The name the unlock form greets: the saved display name, else the saved
/// user name, else nothing.
pub fn unlock_name(cache: &Option<CacheLogin>) -> (r: String)
    ensures
        r@ == match cache {
            Some(c) => match c.display_name {
                Some(d) => d@,
                None => c.username@,
            },
            None => ""@,
        },
{
    match cache {
        Some(c) => match &c.display_name {
            Some(d) => d.clone(),
            None => c.username.clone(),
        },
        None => {
            proof {
                reveal_strlit("");
            }
            String::new()
        },
    }
}

/// The saved user the login form offers to forget, when it offers to.
pub fn clear_data_user(clear_data: bool, cache: &Option<CacheLogin>) -> (r: Option<String>)
    ensures
        r.deep_view() == if clear_data && cache is Some {
            Some(cache->0.username@)
        } else {
            None
        },
{
    if clear_data {
        match cache {
            Some(c) => Some(c.username.clone()),
            None => None,
        }
    } else {
        None
    }
}

/// The two other ways in that a login form offers, given the page shown
/// before a session: from logging in, creating an account or entering as a
/// guest; from signing up, logging in or entering as a guest; from the
/// guest page, logging in or creating an account.
pub fn form_alternatives(before: BeforeSession) -> (r: (FormLoginEvent, FormLoginEvent))
    ensures
        before == BeforeSession::Login ==> r == (FormLoginEvent::CreateAccount, FormLoginEvent::Guest),
        before == BeforeSession::Signup ==> r == (FormLoginEvent::Login, FormLoginEvent::Guest),
        before == BeforeSession::Guest ==> r == (FormLoginEvent::Login, FormLoginEvent::CreateAccount),
{
    match before {
        BeforeSession::Login => (FormLoginEvent::CreateAccount, FormLoginEvent::Guest),
        BeforeSession::Signup => (FormLoginEvent::Login, FormLoginEvent::Guest),
        BeforeSession::Guest => (FormLoginEvent::Login, FormLoginEvent::CreateAccount),
    }
}

/// What the login page holds during an attempt: its status, the homeserver
/// and the fields typed, and how the last failure is reported.
pub struct LoginAttempt {
    pub status: LoggedInStatus,
    pub homeserver: String,
    pub username: String,
    pub password: String,
    pub error: Option<LoginFailure>,
}

/// What happened in a login attempt.
pub enum LoginOutcome {
    /// The server named in the user name could not be chosen.
    ServerRefused,
    /// Server, user name or password was missing, so nothing was sent.
    Incomplete,
    /// The homeserver refused the login with this error text.
    Refused(String),
    /// The homeserver accepted the login.
    Accepted,
    /// The new session was handed to storage.
    Persisted,
}

/// A login attempt starts: the status becomes `Loading`.
pub fn login_started(attempt: &mut LoginAttempt)
    ensures
        final(attempt).status is Loading,
        final(attempt).homeserver == old(attempt).homeserver,
        final(attempt).username == old(attempt).username,
        final(attempt).password == old(attempt).password,
        final(attempt).error == old(attempt).error,
{
    attempt.status = LoggedInStatus::Loading;
}

/// The next state of a login attempt, and whether the gathered login data
/// must be forgotten: a refused server puts the status back to `Start`;
/// missing data clears the fields and forgets the data (the status stays);
/// a refused login puts the status back to `Start`, reports the failure as
/// `login_failure` classifies its text, clears the fields and forgets the
/// data; an accepted login is `Done`, and once its session is handed to
/// storage, `Persisting`.
pub fn login_step(attempt: &mut LoginAttempt, outcome: LoginOutcome) -> (reset_auth: bool)
    ensures
        final(attempt).homeserver == old(attempt).homeserver,
        match outcome {
            LoginOutcome::ServerRefused => {
                &&& !reset_auth
                &&& final(attempt).status is Start
                &&& final(attempt).username == old(attempt).username
                &&& final(attempt).password == old(attempt).password
                &&& final(attempt).error == old(attempt).error
            },
            LoginOutcome::Incomplete => {
                &&& reset_auth
                &&& final(attempt).status == old(attempt).status
                &&& final(attempt).username@.len() == 0
                &&& final(attempt).password@.len() == 0
                &&& final(attempt).error == old(attempt).error
            },
            LoginOutcome::Refused(text) => {
                &&& reset_auth
                &&& final(attempt).status is Start
                &&& final(attempt).username@.len() == 0
                &&& final(attempt).password@.len() == 0
                &&& final(attempt).error == Some(
                    if text@ == forbidden_login_text() {
                        LoginFailure::InvalidCredentials
                    } else {
                        LoginFailure::Unknown
                    },
                )
            },
            LoginOutcome::Accepted => {
                &&& !reset_auth
                &&& final(attempt).status is Done
                &&& final(attempt).username == old(attempt).username
                &&& final(attempt).password == old(attempt).password
                &&& final(attempt).error == old(attempt).error
            },
            LoginOutcome::Persisted => {
                &&& !reset_auth
                &&& final(attempt).status is Persisting
                &&& final(attempt).username == old(attempt).username
                &&& final(attempt).password == old(attempt).password
                &&& final(attempt).error == old(attempt).error
            },
        },
{
    match outcome {
        LoginOutcome::ServerRefused => {
            attempt.status = LoggedInStatus::Start;
            false
        },
        LoginOutcome::Incomplete => {
            attempt.username = String::new();
            attempt.password = String::new();
            true
        },
        LoginOutcome::Refused(text) => {
            attempt.status = LoggedInStatus::Start;
            attempt.error = Some(login_failure(text.as_str()));
            attempt.username = String::new();
            attempt.password = String::new();
            true
        },
        LoginOutcome::Accepted => {
            attempt.status = LoggedInStatus::Done;
            false
        },
        LoginOutcome::Persisted => {
            attempt.status = LoggedInStatus::Persisting;
            false
        },
    }
}

/// The login remembered after a successful attempt: the homeserver and user
/// name as typed, and the account's display name when known.
pub fn cached_login(attempt: &LoginAttempt, display_name: Option<String>) -> (r: CacheLogin)
    ensures
        r.server == attempt.homeserver,
        r.username == attempt.username,
        r.display_name == display_name,
{
    CacheLogin {
        server: attempt.homeserver.clone(),
        username: attempt.username.clone(),
        display_name,
    }
}

/// Whether Enter in a password field logs in: the password is typed, and so
/// is the user name when the form asks for it.
pub fn logs_in_on_enter(is_enter: bool, username: &str, password: &str, asks_username: bool) -> (r:
    bool)
    ensures
        r == (is_enter && password@.len() > 0 && (!asks_username || username@.len() > 0)),
{
    is_enter && password.unicode_len() > 0 && (!asks_username || username.unicode_len() > 0)
}

// ---------------------------------------------------------------------------
// The application's pages
// ---------------------------------------------------------------------------

/// The page the application shows.
#[derive(PartialEq, Eq, Structural, Clone, Copy, Debug)]
pub enum Page {
    Spinner,
    Chat,
    Loading,
    Login,
    Signup,
    Welcome,
}

/// The page the application shows: a spinner until a client exists; then
/// the chat once logged in, a loading page while a session is restored, or
/// the page chosen before a session.
pub fn page_for(has_client: bool, logged_in: bool, restoring: bool, before: BeforeSession) -> (r:
    Page)
    ensures
        !has_client ==> r == Page::Spinner,
        has_client && logged_in ==> r == Page::Chat,
        has_client && !logged_in && restoring ==> r == Page::Loading,
        has_client && !logged_in && !restoring ==> r == match before {
            BeforeSession::Login => Page::Login,
            BeforeSession::Signup => Page::Signup,
            BeforeSession::Guest => Page::Welcome,
        },
{
    if !has_client {
        Page::Spinner
    } else if logged_in {
        Page::Chat
    } else if restoring {
        Page::Loading
    } else {
        match before {
            BeforeSession::Login => Page::Login,
            BeforeSession::Signup => Page::Signup,
            BeforeSession::Guest => Page::Welcome,
        }
    }
}

/// Whether the menu offers the profile page: not to guests.
pub fn shows_profile(is_guest: bool) -> (r: bool)
    ensures
        r == !is_guest,
{
    !is_guest
}

// ---------------------------------------------------------------------------
// Verifying a device
// ---------------------------------------------------------------------------

/// Where a device verification stands: whether the device is verified and
/// whether emojis are being compared.
#[derive(PartialEq, Eq, Structural, Clone, Copy, Debug)]
pub struct VerifyState {
    pub verified: bool,
    pub comparing: bool,
}

/// When the other session sends its key: the emojis are compared.
pub fn on_compare(state: VerifyState) -> (r: VerifyState)
    ensures
        r == (VerifyState { comparing: true, ..state }),
{
    VerifyState { comparing: true, ..state }
}

/// When the other session reports the flow finished: verified once the
/// flow is done, otherwise unchanged.
pub fn after_done(state: VerifyState, done: bool) -> (r: VerifyState)
    ensures
        done ==> r == (VerifyState { verified: true, ..state }),
        !done ==> r == state,
{
    if done {
        VerifyState { verified: true, ..state }
    } else {
        state
    }
}

/// After the emojis were confirmed: verified once the flow is done,
/// otherwise the comparison is dropped.
pub fn after_confirm(state: VerifyState, done: bool) -> (r: VerifyState)
    ensures
        done ==> r == (VerifyState { verified: true, ..state }),
        !done ==> r == (VerifyState { comparing: false, ..state }),
{
    if done {
        VerifyState { verified: true, ..state }
    } else {
        VerifyState { comparing: false, ..state }
    }
}

/// After the emojis were refused: once the flow is cancelled, not verified
/// and no comparison; otherwise unchanged.
pub fn after_cancel(state: VerifyState, cancelled: bool) -> (r: VerifyState)
    ensures
        cancelled ==> r == (VerifyState { verified: false, comparing: false }),
        !cancelled ==> r == state,
{
    if cancelled {
        VerifyState { verified: false, comparing: false }
    } else {
        state
    }
}

} // verus!
