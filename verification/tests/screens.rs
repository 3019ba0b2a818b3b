use chat::auth::{CacheLogin, LogoutError};
use chat::messaging::LeaveRoomError;
use chat::pages::{
    after_done, cached_login, login_started, login_step, on_compare, LoginAttempt, LoginOutcome,
    after_cancel, after_confirm, all_rooms, chat_list_error_key, chat_list_panel, clear_data_user,
    form_alternatives, holds_room, leave_room_error_key, login_failure, login_from, login_screen,
    login_server, logout_error_key, logs_in_on_enter, main_error_key, message_item, page_for,
    search_rooms, shows_profile, spaces_bar, unlock_name, verification_error_key, ChatListError,
    ChatListPanel, LoginFailure, LoginFrom, LoginScreen, MainError, Page, SpacesBar,
    VerificationError, VerifyState,
};
use chat::rooms::{Conversations, RoomItem, SpaceRooms};
use chat::state::{
    before_session_for, default_language, use_public, use_room_preview, BeforeSession,
    CurrentRoom, FormLoginEvent, LoggedInStatus, PreviewRoom, PublicState,
};
use chat::timeline::{EventOrigin, RoomMember, TimelineMessage, TimelineMessageType};
use chat::views::ReplyingTo;

fn item(id: &str, name: &str) -> RoomItem {
    RoomItem { avatar_uri: None, id: String::from(id), name: String::from(name), is_public: false, is_direct: false }
}

fn names(rooms: &Vec<RoomItem>) -> Vec<String> {
    rooms.iter().map(|r| r.name.clone()).collect()
}

#[test]
fn failure_messages_have_their_keys() {
    assert_eq!(chat_list_error_key(ChatListError::SessionNotFound), "chat.session.error.not_found");
    assert_eq!(chat_list_error_key(ChatListError::PublicRooms), "chat.list.errors.public_rooms");
    assert_eq!(chat_list_error_key(ChatListError::InvitedRooms), "chat.list.errors.invited_rooms");
    assert_eq!(leave_room_error_key(LeaveRoomError::InvalidRoomId), "chat.common.error.room_id");
    assert_eq!(leave_room_error_key(LeaveRoomError::RoomNotFound), "chat.common.error.room_not_found");
    assert_eq!(leave_room_error_key(LeaveRoomError::Failed), "chat.actions.leave");
    assert_eq!(logout_error_key(LogoutError::Failed), "logout.error.server");
    assert_eq!(logout_error_key(LogoutError::DefaultClient), "logout.error.server");
    assert_eq!(logout_error_key(LogoutError::RemoveSession), "logout.chat.common.error.default_server");
    assert_eq!(main_error_key(MainError::DefaultServer), "chat.common.error.default_server");
    assert_eq!(main_error_key(MainError::RestoreFailed), "main.errors.restore");
    assert_eq!(main_error_key(MainError::SyncFailed), "chat.common.error.sync");
    assert_eq!(verification_error_key(VerificationError::FlowNotFound), "verify.errors.flow_not_found");
    assert_eq!(verification_error_key(VerificationError::SasAcceptFailed), "verify.errors.sas_accept");
    assert_eq!(verification_error_key(VerificationError::SasConfirmFailed), "verify.errors.sas_confirm");
    assert_eq!(verification_error_key(VerificationError::SasCancelFailed), "verify.errors.sas_cancel");
    assert_eq!(verification_error_key(VerificationError::SyncFailed), "verify.errors.sas_sync");
}

#[test]
fn all_rooms_lists_spaces_first() {
    let c = Conversations {
        rooms: vec![item("!c:x", "Cafe")],
        spaces: vec![
            SpaceRooms { space: item("!s:x", "S"), rooms: vec![item("!a:x", "Alpha")] },
            SpaceRooms { space: item("!t:x", "T"), rooms: vec![item("!b:x", "Beta"), item("!d:x", "Delta")] },
        ],
    };
    assert_eq!(names(&all_rooms(&c)), vec!["Alpha", "Beta", "Delta", "Cafe"]);
}

#[test]
fn search_ignores_case_and_falls_back_to_joined() {
    let all = vec![item("!a:x", "General Chat"), item("!b:x", "random"), item("!c:x", "CHATTER")];
    let joined = vec![item("!j:x", "Joined")];
    assert_eq!(names(&search_rooms(&all, &joined, "chat")), vec!["General Chat", "CHATTER"]);
    assert_eq!(names(&search_rooms(&all, &joined, "RAND")), vec!["random"]);
    assert_eq!(names(&search_rooms(&all, &joined, "")), vec!["Joined"]);
    assert!(search_rooms(&all, &joined, "zzz").is_empty());
}

#[test]
fn open_room_is_kept_only_when_listed() {
    let rooms = vec![item("!a:x", "A"), item("!b:x", "B")];
    assert!(holds_room(&rooms, "!b:x"));
    assert!(!holds_room(&rooms, "!z:x"));
}

#[test]
fn chat_list_panels_and_bars() {
    assert_eq!(spaces_bar(true, true), SpacesBar::Spaces);
    assert_eq!(spaces_bar(false, true), SpacesBar::Skeletons(5));
    assert_eq!(spaces_bar(false, false), SpacesBar::Empty);
    assert_eq!(chat_list_panel(true, false, "R"), ChatListPanel::PublicRooms);
    assert_eq!(chat_list_panel(false, false, "R"), ChatListPanel::PreviewRoom);
    assert_eq!(chat_list_panel(false, true, "R"), ChatListPanel::ActiveRoom);
    assert_eq!(chat_list_panel(false, true, ""), ChatListPanel::Nothing);
}

#[test]
fn messages_answer_the_replied_event() {
    let replying = Some(ReplyingTo {
        event_id: String::from("$e"),
        content: TimelineMessageType::Text(String::from("hi")),
        display_name: String::from("Bob"),
        avatar_uri: None,
        origin: EventOrigin::OTHER,
    });
    let m = message_item("!r:x", String::from("yes"), &replying, true);
    assert_eq!(m.room_id, "!r:x");
    assert_eq!(m.msg, "yes");
    assert_eq!(m.reply_to, Some(String::from("$e")));
    assert!(m.send_to_thread);
    assert_eq!(message_item("!r:x", String::from("no"), &None, false).reply_to, None);
}

#[test]
fn login_names_the_server_after_the_first_colon() {
    assert_eq!(login_server("@alice:matrix.org"), Some(String::from("matrix.org")));
    assert_eq!(login_server("@alice:localhost:8008"), Some(String::from("localhost:8008")));
    assert_eq!(login_server("alice"), None);
}

#[test]
fn login_failures_are_classified_by_text() {
    assert_eq!(
        login_failure("the server returned an error: [403 / M_FORBIDDEN] Invalid username or password"),
        LoginFailure::InvalidCredentials
    );
    assert_eq!(login_failure("the server returned an error: [429 / M_LIMIT_EXCEEDED]"), LoginFailure::Unknown);
}

#[test]
fn login_forms() {
    assert_eq!(login_from(true), LoginFrom::SavedData);
    assert_eq!(login_from(false), LoginFrom::FullForm);
    let start = LoggedInStatus::Start;
    let loading = LoggedInStatus::Loading;
    assert_eq!(login_screen(true, &start, LoginFrom::FullForm, false, false), LoginScreen::Unlock);
    assert_eq!(login_screen(false, &loading, LoginFrom::SavedData, true, true), LoginScreen::Unlock);
    assert_eq!(login_screen(true, &loading, LoginFrom::FullForm, true, true), LoginScreen::Credentials);
    assert_eq!(login_screen(false, &start, LoginFrom::FullForm, true, true), LoginScreen::Credentials);
}

#[test]
fn unlock_greets_the_saved_user() {
    let with_name = Some(CacheLogin {
        server: String::from("https://m.org"),
        username: String::from("@alice:m.org"),
        display_name: Some(String::from("Alice")),
    });
    let without = Some(CacheLogin { server: String::from("https://m.org"), username: String::from("@alice:m.org"), display_name: None });
    assert_eq!(unlock_name(&with_name), "Alice");
    assert_eq!(unlock_name(&without), "@alice:m.org");
    assert_eq!(unlock_name(&None), "");
    assert_eq!(clear_data_user(true, &without), Some(String::from("@alice:m.org")));
    assert_eq!(clear_data_user(false, &without), None);
    assert_eq!(clear_data_user(true, &None), None);
}

#[test]
fn form_offers_the_other_ways_in() {
    assert_eq!(form_alternatives(BeforeSession::Login), (FormLoginEvent::CreateAccount, FormLoginEvent::Guest));
    assert_eq!(form_alternatives(BeforeSession::Signup), (FormLoginEvent::Login, FormLoginEvent::Guest));
    assert_eq!(form_alternatives(BeforeSession::Guest), (FormLoginEvent::Login, FormLoginEvent::CreateAccount));
    assert_eq!(before_session_for(FormLoginEvent::CreateAccount), Some(BeforeSession::Signup));
    assert_eq!(before_session_for(FormLoginEvent::Guest), Some(BeforeSession::Guest));
    assert_eq!(before_session_for(FormLoginEvent::Login), Some(BeforeSession::Login));
    assert_eq!(before_session_for(FormLoginEvent::FilledForm), None);
    assert_eq!(before_session_for(FormLoginEvent::ClearData), None);
}

#[test]
fn enter_logs_in_once_fields_are_typed() {
    assert!(logs_in_on_enter(true, "", "pw", false));
    assert!(!logs_in_on_enter(true, "", "pw", true));
    assert!(logs_in_on_enter(true, "alice", "pw", true));
    assert!(!logs_in_on_enter(false, "alice", "pw", true));
    assert!(!logs_in_on_enter(true, "alice", "", true));
}

#[test]
fn application_pages() {
    assert_eq!(page_for(false, true, true, BeforeSession::Login), Page::Spinner);
    assert_eq!(page_for(true, true, true, BeforeSession::Login), Page::Chat);
    assert_eq!(page_for(true, false, true, BeforeSession::Login), Page::Loading);
    assert_eq!(page_for(true, false, false, BeforeSession::Login), Page::Login);
    assert_eq!(page_for(true, false, false, BeforeSession::Signup), Page::Signup);
    assert_eq!(page_for(true, false, false, BeforeSession::Guest), Page::Welcome);
    assert!(shows_profile(false));
    assert!(!shows_profile(true));
    assert_eq!(default_language("es-AR"), "es-ES");
    assert_eq!(default_language("en-GB"), "en-US");
}

#[test]
fn verification_flow() {
    let comparing = VerifyState { verified: false, comparing: true };
    assert_eq!(after_confirm(comparing, true), VerifyState { verified: true, comparing: true });
    assert_eq!(after_confirm(comparing, false), VerifyState { verified: false, comparing: false });
    assert_eq!(after_cancel(comparing, true), VerifyState { verified: false, comparing: false });
    assert_eq!(after_cancel(comparing, false), comparing);
}

#[test]
fn login_status_texts() {
    assert!(LoggedInStatus::Start.has_status());
    assert!(LoggedInStatus::LoggedAs(String::from("x")).has_status());
    assert_eq!(LoggedInStatus::Loading.get_text("l", "g", "d", "p"), Some("l"));
    assert_eq!(LoggedInStatus::LoggedAs(String::from("x")).get_text("l", "g", "d", "p"), Some("g"));
    assert_eq!(LoggedInStatus::Done.get_text("l", "g", "d", "p"), Some("d"));
    assert_eq!(LoggedInStatus::Persisting.get_text("l", "g", "d", "p"), Some("p"));
    assert_eq!(LoggedInStatus::Start.get_text("l", "g", "d", "p"), None);
}

#[test]
fn shared_state_reads_back() {
    let mut preview = use_room_preview();
    assert!(preview.get().is_none());
    preview.set(PreviewRoom::Invited(CurrentRoom { id: String::from("!i:x"), name: String::from("I"), avatar_uri: None }));
    assert!(!preview.get().is_none());
    match preview.get() {
        PreviewRoom::Invited(r) => assert_eq!(r.id, "!i:x"),
        _ => panic!("expected an invitation"),
    }
    preview.default();
    assert!(preview.get().is_none());

    let mut public = use_public();
    assert_eq!(public.get(), PublicState { show: false });
    public.set(PublicState { show: true });
    assert_eq!(public.get(), PublicState { show: true });
    public.default();
    assert_eq!(public.get(), PublicState { show: false });

    let room = CurrentRoom::default();
    assert!(room.id.is_empty() && room.name.is_empty() && room.avatar_uri.is_none());
}

#[test]
fn sender_types_are_plain_values() {
    let m = TimelineMessage {
        event_id: String::from("$m"),
        sender: RoomMember { id: String::from("@a:x"), name: String::from("A"), avatar_uri: None },
        body: TimelineMessageType::Text(String::from("t")),
        origin: EventOrigin::ME,
        time: String::from("00:00"),
    };
    let c = m.clone();
    assert_eq!(c.event_id, "$m");
    assert_eq!(c.sender.name, "A");
}

fn attempt() -> LoginAttempt {
    LoginAttempt {
        status: LoggedInStatus::Start,
        homeserver: String::from("https://m.org"),
        username: String::from("alice"),
        password: String::from("pw"),
        error: None,
    }
}

#[test]
fn a_login_attempt_steps_through_its_statuses() {
    let mut a = attempt();
    login_started(&mut a);
    assert!(matches!(a.status, LoggedInStatus::Loading));
    assert!(!login_step(&mut a, LoginOutcome::Accepted));
    assert!(matches!(a.status, LoggedInStatus::Done));
    assert!(!login_step(&mut a, LoginOutcome::Persisted));
    assert!(matches!(a.status, LoggedInStatus::Persisting));
    let c = cached_login(&a, Some(String::from("Alice")));
    assert_eq!(c.server, "https://m.org");
    assert_eq!(c.username, "alice");
    assert_eq!(c.display_name, Some(String::from("Alice")));
}

#[test]
fn failed_logins_clear_the_form() {
    let mut a = attempt();
    login_started(&mut a);
    assert!(login_step(&mut a, LoginOutcome::Refused(String::from(
        "the server returned an error: [403 / M_FORBIDDEN] Invalid username or password"
    ))));
    assert!(matches!(a.status, LoggedInStatus::Start));
    assert_eq!(a.error, Some(LoginFailure::InvalidCredentials));
    assert!(a.username.is_empty() && a.password.is_empty());

    let mut b = attempt();
    login_started(&mut b);
    assert!(login_step(&mut b, LoginOutcome::Incomplete));
    assert!(matches!(b.status, LoggedInStatus::Loading));
    assert!(b.username.is_empty() && b.password.is_empty());

    let mut c = attempt();
    login_started(&mut c);
    assert!(!login_step(&mut c, LoginOutcome::ServerRefused));
    assert!(matches!(c.status, LoggedInStatus::Start));
    assert_eq!(c.username, "alice");
    assert!(login_step(&mut c, LoginOutcome::Refused(String::from("timeout"))));
    assert_eq!(c.error, Some(LoginFailure::Unknown));
}

#[test]
fn verification_events() {
    let idle = VerifyState { verified: false, comparing: false };
    assert_eq!(on_compare(idle), VerifyState { verified: false, comparing: true });
    assert_eq!(after_done(idle, true), VerifyState { verified: true, comparing: false });
    assert_eq!(after_done(idle, false), idle);
}
