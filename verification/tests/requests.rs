use chat::members::{
    account, find_user_by_id, room_member, validate_user_id, FindUserError, MemberLookup,
    ProfileData, RoomMemberError,
};
use chat::messaging::{
    create_client, create_room, leave_room, send_attachment, send_message, timeline_limit,
    Attachment, AttachmentKind, ClientError, LeaveRoomError, RelationPlan, SendMessageError,
};
use chat::timeline::TimelineError;

#[test]
fn user_ids_are_validated_before_lookup() {
    assert_eq!(validate_user_id("@alice:m.org"), Ok(()));
    assert_eq!(validate_user_id("alice"), Err(FindUserError::InvalidUserId));
}

#[test]
fn profiles_need_a_display_name() {
    let p = find_user_by_id(
        "@alice:m.org",
        Some(ProfileData { displayname: Some(String::from("Alice")), avatar_uri: None }),
    )
    .unwrap();
    assert_eq!(p.displayname, "Alice");
    assert_eq!(p.id, "@alice:m.org");
    assert!(matches!(
        find_user_by_id("@alice:m.org", Some(ProfileData { displayname: None, avatar_uri: None })),
        Err(FindUserError::InvalidUsername)
    ));
    assert!(matches!(find_user_by_id("@alice:m.org", None), Err(FindUserError::UserNotFound)));
    assert!(matches!(find_user_by_id("alice", None), Err(FindUserError::InvalidUserId)));
}

#[test]
fn members_need_a_display_name() {
    let m = room_member(Some(MemberLookup {
        user_id: String::from("@bob:m.org"),
        display_name: Some(String::from("Bob")),
        avatar_uri: Some(String::from("https://m.org/b.png")),
    }))
    .unwrap();
    assert_eq!(m.id, "@bob:m.org");
    assert_eq!(m.name, "Bob");
    assert!(matches!(
        room_member(Some(MemberLookup { user_id: String::from("@bob:m.org"), display_name: None, avatar_uri: None })),
        Err(RoomMemberError::NotFound)
    ));
    assert!(matches!(room_member(None), Err(RoomMemberError::NotFound)));
}

#[test]
fn account_name_defaults_to_empty() {
    let a = account(None, None);
    assert_eq!(a.name, "");
    let b = account(Some(String::from("https://m.org/a.png")), Some(String::from("Alice")));
    assert_eq!(b.name, "Alice");
    assert_eq!(b.avatar_uri, Some(String::from("https://m.org/a.png")));
}

#[test]
fn clients_need_a_url() {
    assert_eq!(create_client("https://matrix.org").unwrap().url, "https://matrix.org/");
    assert!(matches!(create_client("matrix.org"), Err(ClientError::InvalidHomeserver)));
}

#[test]
fn leaving_needs_a_room_id() {
    assert_eq!(leave_room("!r:m.org"), Ok(String::from("!r:m.org")));
    assert_eq!(leave_room("#alias:m.org"), Err(LeaveRoomError::InvalidRoomId));
}

#[test]
fn message_relations() {
    assert!(send_message(None, None, None).is_none());
    match send_message(Some(String::from("$r")), None, None) {
        Some(RelationPlan::Reply { in_reply_to }) => assert_eq!(in_reply_to, "$r"),
        _ => panic!("expected a reply"),
    }
    match send_message(Some(String::from("$r")), Some(String::from("$t")), None) {
        Some(RelationPlan::ThreadReply { thread_root, reply_to }) => {
            assert_eq!(thread_root, "$t");
            assert_eq!(reply_to, "$r");
        }
        _ => panic!("expected a threaded reply"),
    }
    match send_message(Some(String::from("$r")), Some(String::from("$t")), Some(String::from("$l"))) {
        Some(RelationPlan::ThreadPlain { thread_root, latest_event }) => {
            assert_eq!(thread_root, "$t");
            assert_eq!(latest_event, "$l");
        }
        _ => panic!("expected a thread message"),
    }
    assert!(send_message(Some(String::from("$r")), None, Some(String::from("$l"))).is_none());
}

fn attachment(content_type: &str) -> Attachment {
    Attachment { body: String::from("f"), data: vec![0, 1], content_type: String::from(content_type) }
}

#[test]
fn attachments_by_media_type() {
    assert_eq!(send_attachment(&attachment("image/png"), &None, &None), Ok((AttachmentKind::Image, false)));
    assert_eq!(
        send_attachment(&attachment("video/mp4"), &Some(String::from("$r")), &None),
        Ok((AttachmentKind::Video, true))
    );
    assert_eq!(
        send_attachment(&attachment("application/pdf"), &None, &Some(String::from("$l"))),
        Ok((AttachmentKind::File, true))
    );
    assert_eq!(send_attachment(&attachment("text/plain"), &None, &None), Err(SendMessageError::InvalidFile));
    assert_eq!(send_attachment(&attachment("garbage"), &None, &None), Err(SendMessageError::InvalidFile));
}

#[test]
fn direct_rooms_invite_and_stay_private() {
    let dm = create_room(true, vec![String::from("@bob:m.org")], None);
    assert!(dm.is_direct && dm.private_chat);
    assert_eq!(dm.invite, vec![String::from("@bob:m.org")]);
    let group = create_room(false, vec![String::from("@bob:m.org")], Some(String::from("Team")));
    assert!(!group.is_direct && !group.private_chat);
    assert!(group.invite.is_empty());
    assert_eq!(group.name, Some(String::from("Team")));
}

#[test]
fn timeline_limits_fit_js_integers() {
    assert_eq!(timeline_limit(20), Ok(20));
    assert_eq!(timeline_limit(9_007_199_254_740_992), Err(TimelineError::InvalidLimit));
}
