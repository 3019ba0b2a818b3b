//! People: user profiles, room members and the account of the logged-in user.
use vstd::prelude::*;
use vstd::string::*;

use crate::boundary::{user_id_is_valid, valid_user_id};
use crate::text::clone_opt_string;
use crate::timeline::{RoomMember, RoomMemberView};

verus! {

/// The public profile of a user.
pub struct Profile {
    pub displayname: String,
    pub avatar_uri: Option<String>,
    pub id: String,
}

pub struct ProfileView {
    pub displayname: Seq<char>,
    pub avatar_uri: Option<Seq<char>>,
    pub id: Seq<char>,
}

impl View for Profile {
    type V = ProfileView;

    open spec fn view(&self) -> ProfileView {
        ProfileView {
            displayname: self.displayname@,
            avatar_uri: self.avatar_uri.deep_view(),
            id: self.id@,
        }
    }
}

/// Why a user could not be found.
#[derive(PartialEq, Eq, Structural, Clone, Copy, Debug)]
pub enum FindUserError {
    InvalidUserId,
    UserNotFound,
    InvalidUsername,
}

/// A profile as the server returned it: the display name when set and the
/// thumbnail address (48x48) of the avatar when there is one.
pub struct ProfileData {
    pub displayname: Option<String>,
    pub avatar_uri: Option<String>,
}

pub struct ProfileDataView {
    pub displayname: Option<Seq<char>>,
    pub avatar_uri: Option<Seq<char>>,
}

impl View for ProfileData {
    type V = ProfileDataView;

    open spec fn view(&self) -> ProfileDataView {
        ProfileDataView {
            displayname: self.displayname.deep_view(),
            avatar_uri: self.avatar_uri.deep_view(),
        }
    }
}

/// Whether `id` may be looked up: it must be a valid user id.
pub fn validate_user_id(id: &str) -> (r: Result<(), FindUserError>)
    ensures
        r is Ok <==> valid_user_id(id@),
        r is Err ==> r->Err_0 == FindUserError::InvalidUserId,
{
    if user_id_is_valid(id) {
        Ok(())
    } else {
        Err(FindUserError::InvalidUserId)
    }
}

/// The profile of user `id`, given what the profile request returned
/// (`None` when it failed): `InvalidUserId` for an id that is not a user id,
/// `UserNotFound` when the request failed, `InvalidUsername` when the user
/// has no display name.
pub fn find_user_by_id(id: &str, response: Option<ProfileData>) -> (r: Result<Profile, FindUserError>)
    ensures
        !valid_user_id(id@) ==> r == Err::<Profile, FindUserError>(FindUserError::InvalidUserId),
        valid_user_id(id@) && response is None ==> r == Err::<Profile, FindUserError>(
            FindUserError::UserNotFound,
        ),
        valid_user_id(id@) && response is Some && response->0@.displayname is None ==> r == Err::<
            Profile,
            FindUserError,
        >(FindUserError::InvalidUsername),
        valid_user_id(id@) && response is Some && response->0@.displayname is Some ==> r is Ok
            && r->Ok_0@ == (ProfileView {
            displayname: response->0@.displayname->0,
            avatar_uri: response->0@.avatar_uri,
            id: id@,
        }),
{
    if !user_id_is_valid(id) {
        return Err(FindUserError::InvalidUserId);
    }
    let data = match response {
        Some(d) => d,
        None => return Err(FindUserError::UserNotFound),
    };
    let displayname = match data.displayname {
        Some(n) => n,
        None => return Err(FindUserError::InvalidUsername),
    };
    Ok(Profile { displayname, avatar_uri: data.avatar_uri, id: id.to_owned() })
}

/// Why a room member could not be shown.
#[derive(PartialEq, Eq, Structural, Clone, Copy, Debug)]
pub enum RoomMemberError {
    NotFound,
}

/// A member as the room returned it: user id, display name when set, and
/// the thumbnail address of the avatar when there is one.
pub struct MemberLookup {
    pub user_id: String,
    pub display_name: Option<String>,
    pub avatar_uri: Option<String>,
}

pub struct MemberLookupView {
    pub user_id: Seq<char>,
    pub display_name: Option<Seq<char>>,
    pub avatar_uri: Option<Seq<char>>,
}

impl View for MemberLookup {
    type V = MemberLookupView;

    open spec fn view(&self) -> MemberLookupView {
        MemberLookupView {
            user_id: self.user_id@,
            display_name: self.display_name.deep_view(),
            avatar_uri: self.avatar_uri.deep_view(),
        }
    }
}

/// The member shown for a lookup (`None` when the member could not be
/// found): `NotFound` when there is no member or no display name.
pub fn room_member(lookup: Option<MemberLookup>) -> (r: Result<RoomMember, RoomMemberError>)
    ensures
        match lookup {
            Some(m) => match m@.display_name {
                Some(n) => r is Ok && r->Ok_0@ == (RoomMemberView {
                    id: m@.user_id,
                    name: n,
                    avatar_uri: m@.avatar_uri,
                }),
                None => r == Err::<RoomMember, RoomMemberError>(RoomMemberError::NotFound),
            },
            None => r == Err::<RoomMember, RoomMemberError>(RoomMemberError::NotFound),
        },
{
    let member = match lookup {
        Some(m) => m,
        None => return Err(RoomMemberError::NotFound),
    };
    let name = match member.display_name {
        Some(n) => n,
        None => return Err(RoomMemberError::NotFound),
    };
    Ok(RoomMember { id: member.user_id, name, avatar_uri: member.avatar_uri })
}

/// The name and avatar of the logged-in user's account.
pub struct AccountInfo {
    pub name: String,
    pub avatar_uri: Option<String>,
}

impl Clone for AccountInfo {
    fn clone(&self) -> (r: Self)
        ensures
            r == *self,
    {
        AccountInfo { name: self.name.clone(), avatar_uri: clone_opt_string(&self.avatar_uri) }
    }
}

/// The account as shown: the display name (empty when it is unknown) and
/// the avatar's thumbnail address.
pub fn account(avatar_uri: Option<String>, display_name: Option<String>) -> (r: AccountInfo)
    ensures
        r.avatar_uri == avatar_uri,
        r.name@ == match display_name {
            Some(n) => n@,
            None => ""@,
        },
{
    let name = match display_name {
        Some(n) => n,
        None => String::from_str(""),
    };
    AccountInfo { name, avatar_uri }
}

} // verus!
