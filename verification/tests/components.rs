use chat::rooms::RoomItem;
use chat::timeline::{
    EventOrigin, RoomMember, TimelineMessage, TimelineMessageReply, TimelineMessageThread,
    TimelineMessageType, TimelineRelation, TimelineThread,
};
use chat::views::{
    button_look, community_classes, input_type, message_card, relation_menu_action,
    room_event, rooms_list_class, rooms_list_content, should_load_more, shows_send_button,
    thread_message_menu_action, thread_preview, ListAction, MenuOption, RoomsListContent, Variant,
};

fn member(id: &str, name: &str) -> RoomMember {
    RoomMember { id: String::from(id), name: String::from(name), avatar_uri: Some(format!("https://x/{}.png", name)) }
}

fn msg(id: &str, who: &str, body: &str) -> TimelineMessage {
    TimelineMessage {
        event_id: String::from(id),
        sender: member(&format!("@{}:x", who), who),
        body: TimelineMessageType::Text(String::from(body)),
        origin: EventOrigin::OTHER,
        time: String::from("12:00"),
    }
}

fn thread(n: usize) -> TimelineThread {
    let names = ["Ann", "Ben", "Cid", "Dee"];
    TimelineThread {
        event_id: String::from("$root"),
        thread: (0..n).map(|i| msg(&format!("$t{}", i), names[i % 4], "x")).collect(),
        latest_event: String::from("$t9"),
        count: n,
    }
}

#[test]
fn buttons_show_status_while_loading() {
    let b = button_look(Variant::Primary, false, &None, "Send");
    assert_eq!(b.class, "button button--primary ");
    assert!(!b.disabled);
    assert_eq!(b.label, "Send");
    let d = button_look(Variant::Secondary, true, &None, "Send");
    assert_eq!(d.class, "button button--secondary button--disabled");
    assert!(d.disabled);
    let l = button_look(Variant::Tertiary, false, &Some(String::from("Loading…")), "Send");
    assert_eq!(l.class, "button button--tertiary button--loading");
    assert!(l.disabled);
    assert_eq!(l.label, "Loading…");
}

#[test]
fn community_and_input_defaults() {
    assert_eq!(
        community_classes(Some("community--center"), "green"),
        (String::from("community community--center"), String::from("community__content community__content--green"))
    );
    assert_eq!(community_classes(None, "blue").0, "community ");
    assert_eq!(input_type(None), "text");
    assert_eq!(input_type(Some("password")), "password");
    assert!(shows_send_button("a"));
    assert!(!shows_send_button(""));
}

#[test]
fn room_lists() {
    assert_eq!(rooms_list_class(true, false), "rooms-list   fade-in");
    assert_eq!(rooms_list_class(false, true), "rooms-list room-list--wrap rooms-list--skeleton fade-in");
    assert_eq!(rooms_list_content(true, true), RoomsListContent::Rooms);
    assert_eq!(rooms_list_content(false, true), RoomsListContent::Skeletons(20));
    assert_eq!(rooms_list_content(false, false), RoomsListContent::Empty);
    let r = RoomItem {
        avatar_uri: Some(String::from("https://x/r.png")),
        id: String::from("!r:x"),
        name: String::from("Room"),
        is_public: true,
        is_direct: false,
    };
    let e = room_event(&r);
    assert_eq!(e.room.id, "!r:x");
    assert_eq!(e.room.name, "Room");
    assert_eq!(e.room.avatar_uri, Some(String::from("https://x/r.png")));
}

#[test]
fn older_messages_load_near_the_top() {
    // The list is 1000 high; 80% of it is 800.
    assert_eq!(should_load_more(300, -600, 1000, 400, false), (true, 600));
    assert_eq!(should_load_more(300, -400, 1000, 300, false), (false, 400));
    assert_eq!(should_load_more(300, -600, 1000, 700, false), (false, 600));
    assert_eq!(should_load_more(300, -600, 1000, 400, true), (false, 600));
    assert_eq!(should_load_more(0, 0, 1, -1, false), (true, 0));
    // 80% rounds toward zero: -199 * 80 / 100 is -159.
    assert_eq!(should_load_more(-160, 0, -199, -1, false), (false, 0));
    assert_eq!(should_load_more(-159, 0, -199, -1, false), (true, 0));
}

#[test]
fn thread_previews_show_two_senders() {
    let p = thread_preview(&thread(3).thread);
    assert_eq!(p.count, 2);
    assert_eq!(p.meta_senders.len(), 2);
    assert_eq!(p.meta_senders[0].display_name, "Ann");
    assert_eq!(p.meta_senders[1].display_name, "Ben");
    assert_eq!(p.meta_senders[1].avatar_uri, Some(String::from("https://x/Ben.png")));
    let one = thread_preview(&thread(1).thread);
    assert_eq!(one.count, 0);
    assert_eq!(one.meta_senders.len(), 1);
    let long = thread_preview(&thread(130).thread);
    assert_eq!(long.count, (129usize as i8));
}

#[test]
fn cards_for_each_entry() {
    let m = message_card(&TimelineRelation::Message(msg("$m", "Ann", "hello")), 4).unwrap();
    assert_eq!(m.id, 4);
    assert_eq!(m.event_id, "$m");
    assert_eq!(m.display_name, "Ann");
    assert!(m.reply.is_none() && m.thread.is_none());

    let rep = TimelineRelation::Reply(TimelineMessageReply {
        event: msg("$a", "Ben", "answer"),
        reply: Some(msg("$q", "Cid", "question")),
    });
    let c = message_card(&rep, 0).unwrap();
    assert_eq!(c.event_id, "$a");
    let answered = c.reply.unwrap();
    assert_eq!(answered.display_name, "Cid");
    assert!(matches!(answered.content, TimelineMessageType::Text(ref t) if t == "question"));

    let t = message_card(&TimelineRelation::CustomThread(thread(2)), 1).unwrap();
    assert_eq!(t.event_id, "$t0");
    assert_eq!(t.thread.unwrap().count, 1);

    let loose = TimelineRelation::Thread(TimelineMessageThread { event_id: String::from("$root"), thread: vec![msg("$t", "Ann", "x")] });
    assert!(message_card(&loose, 0).is_none());
}

#[test]
fn menu_actions() {
    let plain = TimelineRelation::Message(msg("$m", "Ann", "hello"));
    match relation_menu_action(&plain, MenuOption::Reply) {
        ListAction::ReplyTo(r) => {
            assert_eq!(r.event_id, "$m");
            assert_eq!(r.display_name, "Ann");
        }
        _ => panic!("expected a reply"),
    }
    match relation_menu_action(&plain, MenuOption::CreateThread) {
        ListAction::OpenThread(t) => {
            assert_eq!(t.event_id, "$m");
            assert_eq!(t.latest_event, "$m");
            assert_eq!(t.count, 0);
            assert_eq!(t.thread.len(), 1);
        }
        _ => panic!("expected a new thread"),
    }
    assert!(matches!(relation_menu_action(&plain, MenuOption::Download), ListAction::Nothing));

    let folded = TimelineRelation::CustomThread(thread(2));
    match relation_menu_action(&folded, MenuOption::Reply) {
        ListAction::ReplyTo(r) => {
            assert_eq!(r.event_id, "$root");
            assert_eq!(r.display_name, "Ann");
        }
        _ => panic!("expected a reply to the thread"),
    }
    match relation_menu_action(&folded, MenuOption::ShowThread) {
        ListAction::OpenThread(t) => {
            assert_eq!(t.event_id, "$root");
            assert_eq!(t.thread.len(), 2);
            assert_eq!(t.latest_event, "$t9");
        }
        _ => panic!("expected the thread"),
    }
    assert!(matches!(relation_menu_action(&folded, MenuOption::CreateThread), ListAction::Nothing));

    let rep = TimelineRelation::Reply(TimelineMessageReply { event: msg("$a", "Ben", "answer"), reply: None });
    assert!(matches!(relation_menu_action(&rep, MenuOption::Reply), ListAction::ReplyTo(ref r) if r.event_id == "$a"));
    assert!(matches!(relation_menu_action(&rep, MenuOption::CreateThread), ListAction::Nothing));

    let m = msg("$x", "Dee", "in thread");
    assert!(matches!(thread_message_menu_action(&m, MenuOption::Reply), ListAction::ReplyTo(ref r) if r.event_id == "$x"));
    assert!(matches!(thread_message_menu_action(&m, MenuOption::ShowThread), ListAction::Nothing));
}
