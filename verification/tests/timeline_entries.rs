use chat::boundary::utc_time_label;
use chat::timeline::{
    deserialize_any_timeline_event, deserialize_any_timeline_event_at, deserialize_timeline_event,
    deserialize_timeline_event_at, format_message_at, format_original_any_room_message_event,
    format_head_thread, timeline_page, times_in_range, TimelineError, format_relation_from_event_at, merge_timeline_relation, timeline, EventOrigin, ImageType,
    MediaData, MessageContent, RelationData, RoomMember, RoomMessageData, TimelineEvent,
    TimelineMessage, TimelineMessageThread, TimelineMessageType, TimelineRelation,
};

fn alice() -> RoomMember {
    RoomMember { id: String::from("@alice:m.org"), name: String::from("Alice"), avatar_uri: None }
}

fn bob() -> RoomMember {
    RoomMember {
        id: String::from("@bob:m.org"),
        name: String::from("Bob"),
        avatar_uri: Some(String::from("https://m.org/bob.png")),
    }
}

fn text(body: &str) -> MessageContent {
    MessageContent::Text { body: String::from(body), html: None }
}

fn msg(id: &str, who: RoomMember, body: &str) -> TimelineMessage {
    TimelineMessage {
        event_id: String::from(id),
        sender: who,
        body: TimelineMessageType::Text(String::from(body)),
        origin: EventOrigin::OTHER,
        time: String::from("10:00"),
    }
}

fn data(id: &str, who: Option<RoomMember>, body: &str, time_ms: u64) -> RoomMessageData {
    RoomMessageData {
        event_id: String::from(id),
        sender: who,
        content: text(body),
        body: String::from(body),
        time_ms,
    }
}

fn body_text(m: &TimelineMessage) -> String {
    match &m.body {
        TimelineMessageType::Text(t) => t.clone(),
        _ => panic!("expected a text body"),
    }
}

fn is_clock(s: &str) -> bool {
    let c: Vec<char> = s.chars().collect();
    c.len() == 5 && c[0].is_ascii_digit() && c[1].is_ascii_digit() && c[2] == ':'
        && c[3].is_ascii_digit() && c[4].is_ascii_digit()
}

#[test]
fn text_messages_keep_body_and_origin() {
    let m = format_message_at(text("hi"), String::from("$e1"), &alice(), "@alice:m.org", String::from("10:00"))
        .unwrap();
    assert_eq!(m.event_id, "$e1");
    assert_eq!(body_text(&m), "hi");
    assert_eq!(m.origin, EventOrigin::ME);
    assert_eq!(m.time, "10:00");
    let other = format_message_at(text("hi"), String::from("$e1"), &bob(), "@alice:m.org", String::from("10:00"))
        .unwrap();
    assert_eq!(other.origin, EventOrigin::OTHER);
    assert_eq!(other.sender.name, "Bob");
}

#[test]
fn formatted_text_shows_its_html() {
    let c = MessageContent::Text { body: String::from("*a*"), html: Some(String::from("<em>a</em>")) };
    let m = format_message_at(c, String::from("$e"), &alice(), "@x:m.org", String::from("01:02")).unwrap();
    assert!(matches!(m.body, TimelineMessageType::Html(ref h) if h == "<em>a</em>"));
}

#[test]
fn media_needs_a_source() {
    let no_uri = MessageContent::Image {
        body: String::from("pic.png"),
        size: Some(10),
        media: MediaData::Plain { download_uri: None },
    };
    assert!(format_message_at(no_uri, String::from("$e"), &alice(), "@x:m.org", String::from("01:02")).is_none());

    let fetched = MessageContent::Image {
        body: String::from("pic.png"),
        size: Some(3),
        media: MediaData::Encrypted { download_uri: None, fetched: Some(vec![1, 2, 3]) },
    };
    let m = format_message_at(fetched, String::from("$e"), &alice(), "@x:m.org", String::from("01:02")).unwrap();
    match m.body {
        TimelineMessageType::Image(f) => {
            assert_eq!(f.body, "pic.png");
            assert_eq!(f.size, Some(3));
            assert!(matches!(f.source, Some(ImageType::Media(ref d)) if d == &vec![1u8, 2, 3]));
        }
        _ => panic!("expected an image"),
    }

    let file = MessageContent::File {
        body: String::from("doc.pdf"),
        size: None,
        media: MediaData::Encrypted { download_uri: Some(String::from("https://m.org/doc")), fetched: None },
    };
    let m = format_message_at(file, String::from("$e"), &alice(), "@x:m.org", String::from("01:02")).unwrap();
    match m.body {
        TimelineMessageType::File(f) => {
            assert!(matches!(f.source, Some(ImageType::URL(ref u)) if u == "https://m.org/doc"))
        }
        _ => panic!("expected a file"),
    }

    let video = MessageContent::Video {
        body: String::from("v.mp4"),
        size: None,
        media: MediaData::Plain { download_uri: None },
    };
    let m = format_message_at(video, String::from("$e"), &alice(), "@x:m.org", String::from("01:02")).unwrap();
    assert!(matches!(m.body, TimelineMessageType::Video(ref f) if f.source.is_none()));

    assert!(format_message_at(MessageContent::Unsupported, String::from("$e"), &alice(), "@x:m.org", String::from("01:02")).is_none());
}

#[test]
fn local_times_have_clock_shape() {
    let m = format_original_any_room_message_event(text("hi"), String::from("$e"), &alice(), "@x:m.org", 1_700_000_000_000)
        .unwrap();
    assert!(is_clock(&m.time));
    let d = deserialize_timeline_event(data("$e", Some(bob()), "yo", 0), "@x:m.org").unwrap();
    assert!(is_clock(&d.time));
}

#[test]
fn unknown_senders_give_nothing() {
    assert!(deserialize_timeline_event_at(data("$e", None, "hi", 0), "@x:m.org", String::from("00:00")).is_none());
    let m = deserialize_timeline_event_at(data("$e", Some(bob()), "hi", 0), "@x:m.org", String::from("03:04")).unwrap();
    assert_eq!(m.time, "03:04");
    assert_eq!(body_text(&m), "hi");
}

#[test]
fn quoting_reply_drops_the_quote() {
    let replied = data("$orig", Some(bob()), "> quoted", 0);
    let answer = msg("$answer", alice(), "> <@bob:m.org> > quoted\n\nmy answer");
    let time_ms = 5 * 3_600_000 + 30 * 60_000;
    let r = format_relation_from_event_at(
        String::from("> <@bob:m.org> > quoted\n\nmy answer"),
        RelationData::Reply { replied: Some(replied) },
        answer,
        &alice(),
        "@alice:m.org",
        time_ms,
        String::from("09:09"),
    )
    .unwrap();
    match r {
        TimelineRelation::Reply(rep) => {
            assert_eq!(rep.event.event_id, "$orig");
            assert_eq!(body_text(&rep.event), "\n\nmy answer");
            assert_eq!(rep.event.origin, EventOrigin::ME);
            assert_eq!(rep.event.time, utc_time_label(time_ms));
            assert_eq!(rep.event.time, "05:30");
            let answered = rep.reply.unwrap();
            assert_eq!(answered.event_id, "$orig");
            assert_eq!(answered.time, "09:09");
            assert_eq!(answered.sender.name, "Bob");
        }
        _ => panic!("expected a reply"),
    }
}

#[test]
fn plain_reply_keeps_the_message() {
    let replied = data("$orig", Some(bob()), "plain", 0);
    let answer = msg("$answer", alice(), "sure");
    let r = format_relation_from_event_at(
        String::from("sure"),
        RelationData::Reply { replied: Some(replied) },
        answer,
        &alice(),
        "@alice:m.org",
        0,
        String::from("09:09"),
    )
    .unwrap();
    match r {
        TimelineRelation::Reply(rep) => {
            assert_eq!(rep.event.event_id, "$answer");
            assert_eq!(body_text(&rep.event), "sure");
            assert_eq!(body_text(&rep.reply.unwrap()), "plain");
        }
        _ => panic!("expected a reply"),
    }
}

#[test]
fn thread_messages_and_other_relations() {
    let t = format_relation_from_event_at(
        String::from("in thread"),
        RelationData::Thread { root_event_id: String::from("$root") },
        msg("$t1", bob(), "in thread"),
        &bob(),
        "@alice:m.org",
        0,
        String::from("00:00"),
    )
    .unwrap();
    match t {
        TimelineRelation::Thread(th) => {
            assert_eq!(th.event_id, "$root");
            assert_eq!(th.thread.len(), 1);
            assert_eq!(th.thread[0].event_id, "$t1");
        }
        _ => panic!("expected a thread message"),
    }
    assert!(format_relation_from_event_at(
        String::from("x"),
        RelationData::Other,
        msg("$o", bob(), "x"),
        &bob(),
        "@alice:m.org",
        0,
        String::from("00:00"),
    )
    .is_none());
    assert!(format_relation_from_event_at(
        String::from("x"),
        RelationData::Reply { replied: None },
        msg("$o", bob(), "x"),
        &bob(),
        "@alice:m.org",
        0,
        String::from("00:00"),
    )
    .is_none());
}

#[test]
fn events_become_entries() {
    let plain = TimelineEvent::RoomMessage {
        message: data("$p", Some(bob()), "hello", 0),
        relation: RelationData::Absent,
        thread_latest_event: None,
    };
    let e = deserialize_any_timeline_event_at(plain, "@alice:m.org", String::from("07:00"), String::from("08:00"))
        .unwrap();
    assert!(matches!(e, TimelineRelation::Message(ref m) if m.event_id == "$p" && m.time == "07:00"));
    assert!(deserialize_any_timeline_event_at(TimelineEvent::Other, "@a:m.org", String::from("07:00"), String::from("08:00"))
        .is_none());
    let custom = TimelineEvent::RoomMessage {
        message: data("$c", Some(bob()), "hello", 0),
        relation: RelationData::Custom,
        thread_latest_event: None,
    };
    assert!(matches!(deserialize_any_timeline_event(custom, "@a:m.org"), Some(TimelineRelation::Message(_))));
}

#[test]
fn merging_folds_threads_and_fronts_the_rest() {
    let mut ms: Vec<TimelineRelation> = Vec::new();
    merge_timeline_relation(&mut ms, TimelineRelation::Message(msg("$a", bob(), "a")), None);
    assert_eq!(ms.len(), 1);
    merge_timeline_relation(
        &mut ms,
        TimelineRelation::Thread(TimelineMessageThread {
            event_id: String::from("$root"),
            thread: vec![msg("$t2", bob(), "second")],
        }),
        None,
    );
    assert_eq!(ms.len(), 2);
    match &ms[0] {
        TimelineRelation::CustomThread(t) => {
            assert_eq!(t.event_id, "$root");
            assert_eq!(t.count, 1);
            assert_eq!(t.latest_event, "$t2");
        }
        _ => panic!("expected a folded thread"),
    }
    merge_timeline_relation(
        &mut ms,
        TimelineRelation::Thread(TimelineMessageThread {
            event_id: String::from("$root"),
            thread: vec![msg("$t1", bob(), "first")],
        }),
        None,
    );
    assert_eq!(ms.len(), 2);
    merge_timeline_relation(&mut ms, TimelineRelation::Message(msg("$root", alice(), "root")), Some(String::from("$t9")));
    assert_eq!(ms.len(), 2);
    match &ms[0] {
        TimelineRelation::CustomThread(t) => {
            let ids: Vec<&str> = t.thread.iter().map(|m| m.event_id.as_str()).collect();
            assert_eq!(ids, vec!["$root", "$t1", "$t2"]);
            assert_eq!(t.latest_event, "$t9");
            assert_eq!(t.count, 1);
        }
        _ => panic!("expected a folded thread"),
    }
    assert!(matches!(&ms[1], TimelineRelation::Message(m) if m.event_id == "$a"));
}

#[test]
fn a_batch_adds_at_most_one_entry_per_event() {
    let old = vec![TimelineRelation::Message(msg("$old", bob(), "old"))];
    let events = vec![
        TimelineEvent::Other,
        TimelineEvent::RoomMessage {
            message: data("$n1", Some(bob()), "new", 1_700_000_000_000),
            relation: RelationData::Absent,
            thread_latest_event: None,
        },
        TimelineEvent::RoomMessage {
            message: data("$gone", None, "who", 0),
            relation: RelationData::Absent,
            thread_latest_event: None,
        },
    ];
    let r = timeline(old, events, "@alice:m.org");
    assert_eq!(r.len(), 2);
    assert!(matches!(&r[0], TimelineRelation::Message(m) if m.event_id == "$n1"));
    assert!(matches!(&r[1], TimelineRelation::Message(m) if m.event_id == "$old"));
    let unchanged = timeline(vec![], vec![TimelineEvent::Other], "@alice:m.org");
    assert!(unchanged.is_empty());
}

#[test]
fn thread_heads_report_their_latest_event() {
    let head = TimelineEvent::RoomMessage {
        message: data("$root", Some(bob()), "root", 0),
        relation: RelationData::Absent,
        thread_latest_event: Some(String::from("$t7")),
    };
    assert_eq!(format_head_thread(&head), Some((2, String::from("$t7"))));
    let plain = TimelineEvent::RoomMessage {
        message: data("$p", Some(bob()), "p", 0),
        relation: RelationData::Absent,
        thread_latest_event: None,
    };
    assert_eq!(format_head_thread(&plain), None);
    assert_eq!(format_head_thread(&TimelineEvent::Other), None);
}

#[test]
fn timeline_pages_report_their_errors_in_order() {
    let page = |found: bool, limit: u64, fetched: Option<(Option<String>, Vec<TimelineEvent>)>| {
        timeline_page(found, limit, fetched, vec![], "@alice:m.org")
    };
    assert!(matches!(page(false, 9_007_199_254_740_992, None), Err(TimelineError::RoomNotFound)));
    assert!(matches!(page(true, 9_007_199_254_740_992, None), Err(TimelineError::InvalidLimit)));
    assert!(matches!(page(true, 20, None), Err(TimelineError::MessagesNotFound)));
    let events = vec![TimelineEvent::RoomMessage {
        message: data("$n", Some(bob()), "new", 0),
        relation: RelationData::Absent,
        thread_latest_event: None,
    }];
    let (end, msgs) = page(true, 20, Some((Some(String::from("t1")), events))).unwrap();
    assert_eq!(end, Some(String::from("t1")));
    assert_eq!(msgs.len(), 1);
}

#[test]
fn timestamps_are_checked_only_where_read() {
    let late = u64::MAX;
    let unknown = TimelineEvent::RoomMessage {
        message: data("$u", None, "x", late),
        relation: RelationData::Absent,
        thread_latest_event: None,
    };
    assert!(times_in_range(&unknown));
    let known = TimelineEvent::RoomMessage {
        message: data("$k", Some(bob()), "x", late),
        relation: RelationData::Absent,
        thread_latest_event: None,
    };
    assert!(!times_in_range(&known));
    let reply_late = TimelineEvent::RoomMessage {
        message: data("$r", Some(bob()), "x", 0),
        relation: RelationData::Reply { replied: Some(data("$o", Some(alice()), "y", late)) },
        thread_latest_event: None,
    };
    assert!(!times_in_range(&reply_late));
    let reply_unknown = TimelineEvent::RoomMessage {
        message: data("$r", Some(bob()), "x", 0),
        relation: RelationData::Reply { replied: Some(data("$o", None, "y", late)) },
        thread_latest_event: None,
    };
    assert!(times_in_range(&reply_unknown));
}

#[test]
fn thread_parts_need_no_time_bound() {
    let t = format_relation_from_event_at(
        String::from("in thread"),
        RelationData::Thread { root_event_id: String::from("$root") },
        msg("$t1", bob(), "in thread"),
        &bob(),
        "@alice:m.org",
        u64::MAX,
        String::new(),
    );
    assert!(matches!(t, Some(TimelineRelation::Thread(_))));
}
