use chat::members::{FindUserError, Profile};
use chat::rooms::{
    format_invited_room, group_rooms_into_spaces, invited_rooms, list_rooms_and_spaces,
    public_rooms_and_spaces, JoinedRoomData, MemberData, PublicRoomData, RoomItem,
};

fn item(id: &str, name: &str, direct: bool) -> RoomItem {
    RoomItem {
        avatar_uri: None,
        id: String::from(id),
        name: String::from(name),
        is_public: false,
        is_direct: direct,
    }
}

fn ids(rooms: &Vec<RoomItem>) -> Vec<String> {
    rooms.iter().map(|r| r.id.clone()).collect()
}

fn joined(id: &str, name: Option<&str>, space: bool, direct: bool) -> JoinedRoomData {
    JoinedRoomData {
        id: String::from(id),
        name: name.map(String::from),
        is_left: false,
        is_space: space,
        is_direct: direct,
        is_public: false,
        room_avatar_uri: Some(String::from("https://m.org/room.png")),
        direct_avatar_uri: Some(String::from("https://m.org/friend.png")),
        members: None,
    }
}

#[test]
fn without_spaces_rooms_stay_at_the_top() {
    let rooms = vec![item("!a:x.org", "A", false), item("!b:y.org", "B", true)];
    let c = group_rooms_into_spaces(rooms, vec![]);
    assert_eq!(ids(&c.rooms), vec!["!a:x.org", "!b:y.org"]);
    assert!(c.spaces.is_empty());
}

#[test]
fn rooms_of_a_space_homeserver_go_under_it() {
    let rooms = vec![
        item("!a:x.org", "A", false),
        item("!d:x.org", "D", true),
        item("!b:y.org", "B", false),
    ];
    let c = group_rooms_into_spaces(rooms, vec![item("!s:x.org", "Space", false)]);
    assert_eq!(c.spaces.len(), 1);
    assert_eq!(c.spaces[0].space.id, "!s:x.org");
    assert_eq!(ids(&c.spaces[0].rooms), vec!["!a:x.org"]);
    assert_eq!(ids(&c.rooms), vec!["!d:x.org", "!b:y.org"]);
}

#[test]
fn every_room_is_placed_for_each_space() {
    let rooms = vec![item("!a:x.org", "A", false), item("!b:y.org", "B", false)];
    let spaces = vec![item("!s:x.org", "S", false), item("!t:y.org", "T", false)];
    let c = group_rooms_into_spaces(rooms, spaces);
    assert_eq!(ids(&c.spaces[0].rooms), vec!["!a:x.org"]);
    assert_eq!(ids(&c.spaces[1].rooms), vec!["!b:y.org"]);
    assert_eq!(ids(&c.rooms), vec!["!b:y.org", "!a:x.org"]);
}

#[test]
fn joined_rooms_are_named_and_sorted_into_spaces() {
    let mut unnamed = joined("!dm:x.org", None, false, true);
    unnamed.members = Some(vec![
        MemberData { user_id: String::from("@me:x.org"), name: String::from("Me") },
        MemberData { user_id: String::from("@friend:x.org"), name: String::from("Friend") },
    ]);
    let mut left = joined("!left:x.org", Some("Left"), false, false);
    left.is_left = true;
    let data = vec![
        joined("!space:x.org", Some("Space"), true, false),
        joined("!r:x.org", Some("Room"), false, false),
        unnamed,
        left,
        joined("!nameless:x.org", None, false, false),
    ];
    let c = list_rooms_and_spaces(data, "@me:x.org");
    assert_eq!(c.spaces.len(), 1);
    assert_eq!(c.spaces[0].space.name, "Space");
    assert_eq!(ids(&c.spaces[0].rooms), vec!["!r:x.org"]);
    assert_eq!(ids(&c.rooms), vec!["!dm:x.org"]);
    assert_eq!(c.rooms[0].name, "Friend");
    assert_eq!(c.rooms[0].avatar_uri, Some(String::from("https://m.org/friend.png")));
    assert_eq!(c.spaces[0].rooms[0].avatar_uri, Some(String::from("https://m.org/room.png")));
}

#[test]
fn public_rooms_are_listed_as_given() {
    let chunk = vec![
        PublicRoomData { avatar_uri: None, room_id: String::from("!p:x.org"), name: Some(String::from("Plaza")) },
        PublicRoomData { avatar_uri: None, room_id: String::from("!q:x.org"), name: None },
    ];
    let c = public_rooms_and_spaces(chunk);
    assert_eq!(ids(&c.rooms), vec!["!p:x.org", "!q:x.org"]);
    assert_eq!(c.rooms[1].name, "Unnamed");
    assert!(c.rooms[0].is_public && !c.rooms[0].is_direct);
    assert!(c.spaces.is_empty());
}

#[test]
fn invited_rooms_skip_the_ones_that_failed() {
    let items = vec![Ok(item("!i:x.org", "I", false)), Err(String::from("User not found")), Ok(item("!j:x.org", "J", false))];
    let r = invited_rooms(items).unwrap();
    assert_eq!(ids(&r), vec!["!i:x.org", "!j:x.org"]);
}

#[test]
fn invited_room_is_named_by_its_creator_when_unnamed() {
    let creator = Profile {
        displayname: String::from("Carol"),
        avatar_uri: None,
        id: String::from("@carol:x.org"),
    };
    let r = format_invited_room(None, String::from("!i:x.org"), None, Some(Ok(creator))).unwrap();
    assert_eq!(r.name, "Carol");
    assert!(r.is_public && !r.is_direct);
    let named = format_invited_room(
        None,
        String::from("!i:x.org"),
        Some(String::from("Named")),
        Some(Ok(Profile { displayname: String::from("Carol"), avatar_uri: None, id: String::from("@carol:x.org") })),
    )
    .unwrap();
    assert_eq!(named.name, "Named");
    match format_invited_room(None, String::from("!i:x.org"), None, None) {
        Err(e) => assert_eq!(e, "Content not found"),
        Ok(_) => panic!("expected an error"),
    }
    match format_invited_room(None, String::from("!i:x.org"), None, Some(Err(FindUserError::UserNotFound))) {
        Err(e) => assert_eq!(e, "User not found"),
        Ok(_) => panic!("expected an error"),
    }
}
