//! Shared page state: the open room, the room preview, the public room
//! directory toggle, and the status of an ongoing login.
use vstd::prelude::*;
use vstd::string::*;

use crate::text::{clone_opt_string, starts_with};

verus! {

/// The room open in the chat view.
pub struct CurrentRoom {
    pub id: String,
    pub name: String,
    pub avatar_uri: Option<String>,
}

impl Clone for CurrentRoom {
    fn clone(&self) -> (r: Self)
        ensures
            r == *self,
    {
        CurrentRoom {
            id: self.id.clone(),
            name: self.name.clone(),
            avatar_uri: clone_opt_string(&self.avatar_uri),
        }
    }
}

impl CurrentRoom {
    /// No room: empty id and name, no avatar.
    pub fn default() -> (r: Self)
        ensures
            r.id@ == Seq::<char>::empty(),
            r.name@ == Seq::<char>::empty(),
            r.avatar_uri is None,
    {
        CurrentRoom { id: String::new(), name: String::new(), avatar_uri: None }
    }
}

/// A room picked in a room list.
pub struct FormRoomEvent {
    pub room: CurrentRoom,
}

/// The room previewed instead of a joined room: one the user is invited
/// to, is creating or is joining, or none.
pub enum PreviewRoom {
    Invited(CurrentRoom),
    Creating(CurrentRoom),
    Joining(CurrentRoom),
    Nothing,
}

impl Clone for PreviewRoom {
    fn clone(&self) -> (r: Self)
        ensures
            r == *self,
    {
        match self {
            PreviewRoom::Invited(c) => PreviewRoom::Invited(c.clone()),
            PreviewRoom::Creating(c) => PreviewRoom::Creating(c.clone()),
            PreviewRoom::Joining(c) => PreviewRoom::Joining(c.clone()),
            PreviewRoom::Nothing => PreviewRoom::Nothing,
        }
    }
}

impl PreviewRoom {
    /// No preview.
    pub fn default() -> (r: Self)
        ensures
            r is Nothing,
    {
        PreviewRoom::Nothing
    }

    /// Whether no room is previewed.
    pub fn is_none(self) -> (r: bool)
        ensures
            r == self is Nothing,
    {
        match self {
            PreviewRoom::Nothing => true,
            _ => false,
        }
    }
}

/// The previewed room, shared by the chat pages.
pub struct UseRoomState {
    pub inner: PreviewRoom,
}

/// The shared preview state, starting with no preview.
pub fn use_room_preview() -> (r: UseRoomState)
    ensures
        r.inner is Nothing,
{
    UseRoomState { inner: PreviewRoom::default() }
}

impl UseRoomState {
    /// The previewed room.
    pub fn get(&self) -> (r: PreviewRoom)
        ensures
            r == self.inner,
    {
        self.inner.clone()
    }

    /// Previews `room`.
    pub fn set(&mut self, room: PreviewRoom)
        ensures
            final(self).inner == room,
    {
        self.inner = room;
    }

    /// Previews nothing.
    pub fn default(&mut self)
        ensures
            final(self).inner is Nothing,
    {
        self.set(PreviewRoom::default())
    }
}

/// Whether the public room directory is shown.
#[derive(PartialEq, Eq, Structural, Clone, Copy, Debug)]
pub struct PublicState {
    pub show: bool,
}

impl PublicState {
    /// The directory hidden.
    pub fn default() -> (r: Self)
        ensures
            !r.show,
    {
        PublicState { show: false }
    }
}

/// The public directory toggle, shared by the chat pages.
pub struct UsePublicState {
    pub inner: PublicState,
}

/// The shared directory toggle, starting hidden.
pub fn use_public() -> (r: UsePublicState)
    ensures
        !r.inner.show,
{
    UsePublicState { inner: PublicState::default() }
}

impl UsePublicState {
    /// Whether the directory is shown.
    pub fn get(&self) -> (r: PublicState)
        ensures
            r == self.inner,
    {
        self.inner
    }

    /// Shows or hides the directory.
    pub fn set(&mut self, room: PublicState)
        ensures
            final(self).inner == room,
    {
        self.inner = room;
    }

    /// Hides the directory.
    pub fn default(&mut self)
        ensures
            !final(self).inner.show,
    {
        self.set(PublicState::default())
    }
}

/// Where a login stands.
pub enum LoggedInStatus {
    Start,
    Loading,
    Done,
    Persisting,
    LoggedAs(String),
}

impl LoggedInStatus {
    /// Every status is a status.
    pub fn has_status(&self) -> (r: bool)
        ensures
            r,
    {
        match self {
            LoggedInStatus::Start | LoggedInStatus::Loading | LoggedInStatus::Done
            | LoggedInStatus::Persisting | LoggedInStatus::LoggedAs(_) => true,
        }
    }

    /// The text shown for the status, among the given texts: none before
    /// the login starts.
    pub fn get_text<'a>(
        &self,
        key_loading: &'a str,
        key_logged: &'a str,
        key_done: &'a str,
        key_persisting: &'a str,
    ) -> (r: Option<&'a str>)
        ensures
            match self {
                LoggedInStatus::Loading => r == Some(key_loading),
                LoggedInStatus::LoggedAs(_) => r == Some(key_logged),
                LoggedInStatus::Done => r == Some(key_done),
                LoggedInStatus::Persisting => r == Some(key_persisting),
                LoggedInStatus::Start => r is None,
            },
    {
        match self {
            LoggedInStatus::Loading => Some(key_loading),
            LoggedInStatus::LoggedAs(_) => Some(key_logged),
            LoggedInStatus::Done => Some(key_done),
            LoggedInStatus::Persisting => Some(key_persisting),
            LoggedInStatus::Start => None,
        }
    }
}

/// The page shown before a session exists.
#[derive(PartialEq, Eq, Structural, Clone, Copy, Debug)]
pub enum BeforeSession {
    Login,
    Signup,
    Guest,
}

/// What the login form asks for.
#[derive(PartialEq, Eq, Structural, Clone, Copy, Debug)]
pub enum FormLoginEvent {
    CreateAccount,
    Login,
    FilledForm,
    ClearData,
    Guest,
}

/// The page shown after a login-form request: `None` when the request is
/// handled on the page itself (log in, clear data).
pub fn before_session_for(event: FormLoginEvent) -> (r: Option<BeforeSession>)
    ensures
        r == match event {
            FormLoginEvent::Login => Some(BeforeSession::Login),
            FormLoginEvent::CreateAccount => Some(BeforeSession::Signup),
            FormLoginEvent::Guest => Some(BeforeSession::Guest),
            FormLoginEvent::FilledForm => None::<BeforeSession>,
            FormLoginEvent::ClearData => None::<BeforeSession>,
        },
{
    match event {
        FormLoginEvent::Login => Some(BeforeSession::Login),
        FormLoginEvent::CreateAccount => Some(BeforeSession::Signup),
        FormLoginEvent::Guest => Some(BeforeSession::Guest),
        FormLoginEvent::FilledForm => None,
        FormLoginEvent::ClearData => None,
    }
}

/// The language the interface starts in: Spanish when the browser's
/// language starts with `es`, English otherwise.
pub fn default_language(navigator_language: &str) -> (r: &'static str)
    ensures
        "es"@.is_prefix_of(navigator_language@) ==> r@ == "es-ES"@,
        !"es"@.is_prefix_of(navigator_language@) ==> r@ == "en-US"@,
{
    if starts_with(navigator_language, "es") {
        "es-ES"
    } else {
        "en-US"
    }
}

} // verus!
