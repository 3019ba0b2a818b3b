//! Room lists: the items the chat list shows, and how joined rooms are
//! grouped under the spaces of the same homeserver.
use vstd::prelude::*;
use vstd::string::*;

use crate::members::{FindUserError, Profile};
use crate::text::{clone_opt_string, equal_str, second_piece, second_piece_of};

verus! {

/// A room as the chat list shows it.
pub struct RoomItem {
    pub avatar_uri: Option<String>,
    pub id: String,
    pub name: String,
    pub is_public: bool,
    pub is_direct: bool,
}

pub struct RoomItemView {
    pub avatar_uri: Option<Seq<char>>,
    pub id: Seq<char>,
    pub name: Seq<char>,
    pub is_public: bool,
    pub is_direct: bool,
}

impl View for RoomItem {
    type V = RoomItemView;

    open spec fn view(&self) -> RoomItemView {
        RoomItemView {
            avatar_uri: self.avatar_uri.deep_view(),
            id: self.id@,
            name: self.name@,
            is_public: self.is_public,
            is_direct: self.is_direct,
        }
    }
}

impl DeepView for RoomItem {
    type V = RoomItemView;

    open spec fn deep_view(&self) -> RoomItemView {
        self@
    }
}

impl Clone for RoomItem {
    fn clone(&self) -> (r: Self)
        ensures
            r == *self,
    {
        RoomItem {
            avatar_uri: clone_opt_string(&self.avatar_uri),
            id: self.id.clone(),
            name: self.name.clone(),
            is_public: self.is_public,
            is_direct: self.is_direct,
        }
    }
}

/// A space and the rooms listed under it.
pub struct SpaceRooms {
    pub space: RoomItem,
    pub rooms: Vec<RoomItem>,
}

pub struct SpaceRoomsView {
    pub space: RoomItemView,
    pub rooms: Seq<RoomItemView>,
}

impl View for SpaceRooms {
    type V = SpaceRoomsView;

    open spec fn view(&self) -> SpaceRoomsView {
        SpaceRoomsView { space: self.space@, rooms: self.rooms.deep_view() }
    }
}

impl DeepView for SpaceRooms {
    type V = SpaceRoomsView;

    open spec fn deep_view(&self) -> SpaceRoomsView {
        self@
    }
}

/// The rooms listed at the top level and the spaces with their rooms.
pub struct Conversations {
    pub rooms: Vec<RoomItem>,
    pub spaces: Vec<SpaceRooms>,
}

pub struct ConversationsView {
    pub rooms: Seq<RoomItemView>,
    pub spaces: Seq<SpaceRoomsView>,
}

impl View for Conversations {
    type V = ConversationsView;

    open spec fn view(&self) -> ConversationsView {
        ConversationsView { rooms: self.rooms.deep_view(), spaces: self.spaces.deep_view() }
    }
}

// ---------------------------------------------------------------------------
// Grouping rooms under spaces
// ---------------------------------------------------------------------------

/// The homeserver part of a room id: the piece after its first `:`.
pub open spec fn homeserver_of(id: Seq<char>) -> Seq<char> {
    second_piece(id, ':')
}

/// Room `r` is listed under space `s`: same homeserver, not a direct chat,
/// not the space itself.
pub open spec fn belongs(r: RoomItemView, s: RoomItemView) -> bool {
    homeserver_of(r.id) == homeserver_of(s.id) && !r.is_direct && r.id != s.id
}

pub open spec fn in_space(s: RoomItemView) -> spec_fn(RoomItemView) -> bool {
    |r: RoomItemView| belongs(r, s)
}

pub open spec fn outside_space(s: RoomItemView) -> spec_fn(RoomItemView) -> bool {
    |r: RoomItemView| !belongs(r, s)
}

/// For each space in turn, the rooms that do not belong to it.
pub open spec fn left_over(rooms: Seq<RoomItemView>, spaces: Seq<RoomItemView>) -> Seq<
    RoomItemView,
>
    decreases spaces.len(),
{
    if spaces.len() == 0 {
        Seq::empty()
    } else {
        left_over(rooms, spaces.drop_last()) + rooms.filter(outside_space(spaces.last()))
    }
}

/// A space with the rooms that belong to it.
pub open spec fn space_group(rooms: Seq<RoomItemView>, s: RoomItemView) -> SpaceRoomsView {
    SpaceRoomsView { space: s, rooms: rooms.filter(in_space(s)) }
}

/// The grouping of `rooms` under `spaces`: every space lists the rooms that
/// belong to it; the top level lists all rooms when there is no space, and
/// otherwise, space after space, the rooms that do not belong to it.
pub open spec fn grouped(rooms: Seq<RoomItemView>, spaces: Seq<RoomItemView>) -> ConversationsView {
    ConversationsView {
        rooms: if spaces.len() == 0 {
            rooms
        } else {
            left_over(rooms, spaces)
        },
        spaces: Seq::new(spaces.len(), |k: int| space_group(rooms, spaces[k])),
    }
}

/// Every id holds a homeserver part.
pub open spec fn ids_have_homeserver(items: Seq<RoomItemView>) -> bool {
    forall|i: int| 0 <= i < items.len() ==> (#[trigger] items[i]).id.contains(':')
}

/// An element is kept by a filter exactly when it is in the sequence and
/// passes the filter.
proof fn lemma_filter_has(rooms: Seq<RoomItemView>, pred: spec_fn(RoomItemView) -> bool, r: RoomItemView)
    ensures
        rooms.filter(pred).contains(r) <==> rooms.contains(r) && pred(r),
{
    if rooms.filter(pred).contains(r) {
        rooms.lemma_filter_contains_rev(pred, r);
        let i = choose|i: int| 0 <= i < rooms.filter(pred).len() && rooms.filter(pred)[i] == r;
        rooms.lemma_filter_pred(pred, i);
    }
    if rooms.contains(r) && pred(r) {
        let i = choose|i: int| 0 <= i < rooms.len() && rooms[i] == r;
        rooms.lemma_filter_contains(pred, i);
    }
}

/// An element of a concatenation is an element of one of its parts.
proof fn lemma_concat_has(a: Seq<RoomItemView>, b: Seq<RoomItemView>, r: RoomItemView)
    ensures
        (a + b).contains(r) <==> a.contains(r) || b.contains(r),
{
    if (a + b).contains(r) {
        let i = choose|i: int| 0 <= i < (a + b).len() && (a + b)[i] == r;
        if i >= a.len() {
            assert(b[i - a.len()] == r);
        }
    }
    if a.contains(r) {
        let i = choose|i: int| 0 <= i < a.len() && a[i] == r;
        assert((a + b)[i] == r);
    }
    if b.contains(r) {
        let i = choose|i: int| 0 <= i < b.len() && b[i] == r;
        assert((a + b)[a.len() + i] == r);
    }
}

/// A room is left over after the spaces exactly when it is one of the rooms
/// and fails to belong to one of the spaces.
proof fn lemma_left_over_has(rooms: Seq<RoomItemView>, spaces: Seq<RoomItemView>, r: RoomItemView)
    ensures
        left_over(rooms, spaces).contains(r) <==> rooms.contains(r) && exists|k: int|
            0 <= k < spaces.len() && !belongs(r, #[trigger] spaces[k]),
    decreases spaces.len(),
{
    if spaces.len() > 0 {
        let init = spaces.drop_last();
        lemma_left_over_has(rooms, init, r);
        lemma_concat_has(left_over(rooms, init), rooms.filter(outside_space(spaces.last())), r);
        lemma_filter_has(rooms, outside_space(spaces.last()), r);
        if exists|k: int| 0 <= k < init.len() && !belongs(r, #[trigger] init[k]) {
            let k = choose|k: int| 0 <= k < init.len() && !belongs(r, #[trigger] init[k]);
            assert(spaces[k] == init[k]);
        }
        if exists|k: int| 0 <= k < spaces.len() && !belongs(r, #[trigger] spaces[k]) {
            let k = choose|k: int| 0 <= k < spaces.len() && !belongs(r, #[trigger] spaces[k]);
            if k < init.len() {
                assert(init[k] == spaces[k]);
            }
        }
    }
}

/// Grouping neither loses nor invents rooms: each space keeps its place and
/// lists a room exactly when it is one of the rooms and belongs to that
/// space; the top level lists a room exactly when it is one of the rooms
/// and either there is no space or the room fails to belong to one of them.
pub proof fn lemma_grouping_places_rooms(
    rooms: Seq<RoomItemView>,
    spaces: Seq<RoomItemView>,
    r: RoomItemView,
)
    ensures
        grouped(rooms, spaces).spaces.len() == spaces.len(),
        forall|k: int|
            0 <= k < spaces.len() ==> (#[trigger] grouped(rooms, spaces).spaces[k]).space
                == spaces[k] && (grouped(rooms, spaces).spaces[k].rooms.contains(r) <==> rooms.contains(
                r,
            ) && belongs(r, spaces[k])),
        grouped(rooms, spaces).rooms.contains(r) <==> rooms.contains(r) && (spaces.len() == 0
            || exists|k: int| 0 <= k < spaces.len() && !belongs(r, #[trigger] spaces[k])),
{
    assert forall|k: int| 0 <= k < spaces.len() implies (#[trigger] grouped(
        rooms,
        spaces,
    ).spaces[k]).space == spaces[k] && (grouped(rooms, spaces).spaces[k].rooms.contains(r)
        <==> rooms.contains(r) && belongs(r, spaces[k])) by {
        lemma_filter_has(rooms, in_space(spaces[k]), r);
    }
    lemma_left_over_has(rooms, spaces, r);
}

/// Whether room `room` belongs to space `space`.
fn belongs_to(room: &RoomItem, space: &RoomItem) -> (b: bool)
    requires
        room.id@.contains(':'),
        space.id@.contains(':'),
    ensures
        b == belongs(room@, space@),
{
    let room_homeserver = second_piece_of(room.id.as_str(), ':');
    let space_homeserver = second_piece_of(space.id.as_str(), ':');
    equal_str(room_homeserver.as_str(), space_homeserver.as_str()) && !room.is_direct
        && !equal_str(room.id.as_str(), space.id.as_str())
}

/// Groups `rooms` under `spaces` as `grouped` describes.
pub fn group_rooms_into_spaces(rooms: Vec<RoomItem>, spaces: Vec<RoomItem>) -> (c: Conversations)
    requires
        spaces.len() > 0 ==> ids_have_homeserver(rooms.deep_view()),
        ids_have_homeserver(spaces.deep_view()),
    ensures
        c@ == grouped(rooms.deep_view(), spaces.deep_view()),
{
    let ghost rv = rooms.deep_view();
    let ghost sv = spaces.deep_view();
    let mut to_list: Vec<RoomItem> = Vec::new();
    let mut groups: Vec<SpaceRooms> = Vec::new();
    let ns = spaces.len();
    let nr = rooms.len();
    let mut i: usize = 0;
    assert(left_over(rv, sv.take(0)) =~= Seq::<RoomItemView>::empty()) by {
        assert(sv.take(0).len() == 0);
    }
    while i < ns
        invariant
            ns == spaces.len(),
            nr == rooms.len(),
            rv == rooms.deep_view(),
            sv == spaces.deep_view(),
            ns > 0 ==> ids_have_homeserver(rv),
            ids_have_homeserver(sv),
            i <= ns,
            groups.len() == i,
            forall|k: int| 0 <= k < i ==> #[trigger] groups.deep_view()[k] == space_group(rv, sv[k]),
            to_list.deep_view() == left_over(rv, sv.take(i as int)),
        decreases ns - i,
    {
        let space = &spaces[i];
        assert(space@ == sv[i as int]);
        let ghost base = to_list.deep_view();
        let mut members: Vec<RoomItem> = Vec::new();
        let mut j: usize = 0;
        assert(rv.take(0) =~= Seq::<RoomItemView>::empty());
        assert(Seq::<RoomItemView>::empty().filter(in_space(sv[i as int])) =~= Seq::<RoomItemView>::empty()) by {
            reveal_with_fuel(Seq::<_>::filter, 1);
        }
        assert(Seq::<RoomItemView>::empty().filter(outside_space(sv[i as int])) =~= Seq::<RoomItemView>::empty()) by {
            reveal_with_fuel(Seq::<_>::filter, 1);
        }
        assert(base + Seq::<RoomItemView>::empty() =~= base);
        while j < nr
            invariant
                ns == spaces.len(),
                nr == rooms.len(),
                rv == rooms.deep_view(),
                sv == spaces.deep_view(),
                i < ns,
                space@ == sv[i as int],
                ids_have_homeserver(rv),
                ids_have_homeserver(sv),
                j <= nr,
                members.deep_view() == rv.take(j as int).filter(in_space(sv[i as int])),
                to_list.deep_view() == base + rv.take(j as int).filter(outside_space(sv[i as int])),
            decreases nr - j,
        {
            let room = &rooms[j];
            assert(room@ == rv[j as int]);
            assert(rv.take(j + 1) =~= rv.take(j as int).push(rv[j as int]));
            proof {
                rv.take(j as int).lemma_filter_push(rv[j as int], in_space(sv[i as int]));
                rv.take(j as int).lemma_filter_push(rv[j as int], outside_space(sv[i as int]));
            }
            let ghost mv = members.deep_view();
            let ghost tv = to_list.deep_view();
            if belongs_to(room, space) {
                members.push(room.clone());
                assert(members.deep_view() =~= mv.push(rv[j as int]));
            } else {
                to_list.push(room.clone());
                assert(to_list.deep_view() =~= tv.push(rv[j as int]));
            }
            j = j + 1;
        }
        assert(rv.take(nr as int) =~= rv);
        let ghost gv = groups.deep_view();
        groups.push(SpaceRooms { space: space.clone(), rooms: members });
        assert(groups.deep_view() =~= gv.push(space_group(rv, sv[i as int])));
        assert(sv.take(i + 1).drop_last() =~= sv.take(i as int));
        assert(sv.take(i + 1).last() == sv[i as int]);
        i = i + 1;
    }
    assert(sv.take(ns as int) =~= sv);
    if ns == 0 {
        to_list = rooms;
    }
    let c = Conversations { rooms: to_list, spaces: groups };
    assert(c@.spaces =~= grouped(rv, sv).spaces);
    c
}

// ---------------------------------------------------------------------------
// Building the chat list
// ---------------------------------------------------------------------------

/// Whether two room items hold the same values.
fn same_item(a: &RoomItem, b: &RoomItem) -> (r: bool)
    ensures
        r == (a@ == b@),
{
    let same_avatar = match (&a.avatar_uri, &b.avatar_uri) {
        (Some(x), Some(y)) => equal_str(x.as_str(), y.as_str()),
        (None, None) => true,
        _ => false,
    };
    same_avatar && equal_str(a.id.as_str(), b.id.as_str()) && equal_str(
        a.name.as_str(),
        b.name.as_str(),
    ) && a.is_public == b.is_public && a.is_direct == b.is_direct
}

/// Whether `items` holds an item equal to `item`.
fn holds_item(items: &Vec<RoomItem>, item: &RoomItem) -> (r: bool)
    ensures
        r == items.deep_view().contains(item@),
{
    let n = items.len();
    let mut i: usize = 0;
    while i < n
        invariant
            n == items.len(),
            i <= n,
            forall|j: int| 0 <= j < i ==> items.deep_view()[j] != item@,
        decreases n - i,
    {
        if same_item(&items[i], item) {
            assert(items.deep_view()[i as int] == item@);
            return true;
        }
        i = i + 1;
    }
    false
}

/// A member of a room: their user id and the name the room shows for them.
pub struct MemberData {
    pub user_id: String,
    pub name: String,
}

pub struct MemberDataView {
    pub user_id: Seq<char>,
    pub name: Seq<char>,
}

impl View for MemberData {
    type V = MemberDataView;

    open spec fn view(&self) -> MemberDataView {
        MemberDataView { user_id: self.user_id@, name: self.name@ }
    }
}

impl DeepView for MemberData {
    type V = MemberDataView;

    open spec fn deep_view(&self) -> MemberDataView {
        self@
    }
}

/// A room of the client as plain values: whether it was left, is a space,
/// a direct chat, public; its name; the thumbnail address of its avatar and
/// of the avatar of its first direct target (when that member is known);
/// and its members when they could be listed.
pub struct JoinedRoomData {
    pub id: String,
    pub name: Option<String>,
    pub is_left: bool,
    pub is_space: bool,
    pub is_direct: bool,
    pub is_public: bool,
    pub room_avatar_uri: Option<String>,
    pub direct_avatar_uri: Option<String>,
    pub members: Option<Vec<MemberData>>,
}

pub struct JoinedRoomDataView {
    pub id: Seq<char>,
    pub name: Option<Seq<char>>,
    pub is_left: bool,
    pub is_space: bool,
    pub is_direct: bool,
    pub is_public: bool,
    pub room_avatar_uri: Option<Seq<char>>,
    pub direct_avatar_uri: Option<Seq<char>>,
    pub members: Option<Seq<MemberDataView>>,
}

impl View for JoinedRoomData {
    type V = JoinedRoomDataView;

    open spec fn view(&self) -> JoinedRoomDataView {
        JoinedRoomDataView {
            id: self.id@,
            name: self.name.deep_view(),
            is_left: self.is_left,
            is_space: self.is_space,
            is_direct: self.is_direct,
            is_public: self.is_public,
            room_avatar_uri: self.room_avatar_uri.deep_view(),
            direct_avatar_uri: self.direct_avatar_uri.deep_view(),
            members: match self.members {
                Some(m) => Some(m.deep_view()),
                None => None,
            },
        }
    }
}

impl DeepView for JoinedRoomData {
    type V = JoinedRoomDataView;

    open spec fn deep_view(&self) -> JoinedRoomDataView {
        self@
    }
}

/// `p` is the position of the first member of `ms` who is not `user`.
pub open spec fn is_first_other(ms: Seq<MemberDataView>, user: Seq<char>, p: int) -> bool {
    &&& 0 <= p < ms.len()
    &&& ms[p].user_id != user
    &&& forall|j: int| 0 <= j < p ==> (#[trigger] ms[j]).user_id == user
}

/// The first member of `ms` who is not `user`, if any.
pub open spec fn first_other(ms: Seq<MemberDataView>, user: Seq<char>) -> Option<MemberDataView> {
    if exists|p: int| is_first_other(ms, user, p) {
        Some(ms[choose|p: int| is_first_other(ms, user, p)])
    } else {
        None
    }
}

/// The member an unnamed room is named after is someone other than the
/// user, and the first such member: every member before them is the user.
/// There is none exactly when every member is the user.
pub proof fn lemma_first_other_member(ms: Seq<MemberDataView>, user: Seq<char>)
    ensures
        first_other(ms, user) matches Some(x) ==> x.user_id != user && exists|p: int|
            0 <= p < ms.len() && ms[p] == x && forall|j: int|
                0 <= j < p ==> (#[trigger] ms[j]).user_id == user,
        first_other(ms, user) is None <==> forall|j: int|
            0 <= j < ms.len() ==> (#[trigger] ms[j]).user_id == user,
{
    if exists|p: int| is_first_other(ms, user, p) {
        let p = choose|p: int| is_first_other(ms, user, p);
        assert(ms[p].user_id != user);
    } else {
        assert forall|j: int| 0 <= j < ms.len() implies (#[trigger] ms[j]).user_id == user by {
            if ms[j].user_id != user {
                lemma_first_other_exists(ms, user, j);
            }
        }
    }
}

/// A member other than the user makes a first such member.
proof fn lemma_first_other_exists(ms: Seq<MemberDataView>, user: Seq<char>, i: int)
    requires
        0 <= i < ms.len(),
        ms[i].user_id != user,
    ensures
        exists|p: int| is_first_other(ms, user, p),
    decreases i,
{
    if forall|j: int| 0 <= j < i ==> (#[trigger] ms[j]).user_id == user {
        assert(is_first_other(ms, user, i));
    } else {
        let j = choose|j: int| 0 <= j < i && (#[trigger] ms[j]).user_id != user;
        lemma_first_other_exists(ms, user, j);
    }
}

/// An unnamed room that is listed is named after its first member other
/// than the user.
pub proof fn lemma_unnamed_room_named_after_other(d: JoinedRoomDataView, user: Seq<char>)
    requires
        d.name is None,
        room_entry(d, user) is Some,
    ensures
        d.members is Some,
        exists|p: int|
            0 <= p < d.members->0.len() && (room_entry(d, user)->0).0.name == d.members->0[p].name
                && d.members->0[p].user_id != user && forall|j: int|
                0 <= j < p ==> (#[trigger] d.members->0[j]).user_id == user,
{
    lemma_first_other_member(d.members->0, user);
}

/// The item for a room of the chat list.
pub open spec fn room_item(
    avatar_uri: Option<Seq<char>>,
    id: Seq<char>,
    name: Seq<char>,
    is_public: bool,
    is_direct: bool,
) -> RoomItemView {
    RoomItemView { avatar_uri, id, name, is_public, is_direct }
}

/// What the chat list makes of a room, and whether it is listed as a space:
/// rooms that were left are skipped unless they are spaces; a direct chat
/// shows its target's avatar, any other room its own; a named room is listed
/// by its name (as a space when it is one); an unnamed room is listed as a
/// room under the name of its first member other than `user`, and is
/// skipped when there is none or its members are unknown.
pub open spec fn room_entry(d: JoinedRoomDataView, user: Seq<char>) -> Option<(RoomItemView, bool)> {
    if d.is_left && !d.is_space {
        None
    } else {
        let avatar = if d.is_direct {
            d.direct_avatar_uri
        } else {
            d.room_avatar_uri
        };
        match d.name {
            Some(n) => Some((room_item(avatar, d.id, n, d.is_public, d.is_direct), d.is_space)),
            None => match d.members {
                Some(ms) => match first_other(ms, user) {
                    Some(m) => Some((room_item(avatar, d.id, m.name, d.is_public, d.is_direct), false)),
                    None => None,
                },
                None => None,
            },
        }
    }
}

/// The rooms and the spaces (each space once) of a list of rooms, in order.
pub open spec fn collect_rooms(ds: Seq<JoinedRoomDataView>, user: Seq<char>) -> (Seq<RoomItemView>, Seq<RoomItemView>)
    decreases ds.len(),
{
    if ds.len() == 0 {
        (Seq::empty(), Seq::empty())
    } else {
        let (r, s) = collect_rooms(ds.drop_last(), user);
        match room_entry(ds.last(), user) {
            None => (r, s),
            Some((item, is_space)) => if is_space {
                if s.contains(item) {
                    (r, s)
                } else {
                    (r, s.push(item))
                }
            } else {
                (r.push(item), s)
            },
        }
    }
}

/// The first member of `members` who is not `user`.
fn find_other_member(members: &Vec<MemberData>, user: &str) -> (r: Option<usize>)
    ensures
        first_other(members.deep_view(), user@) == match r {
            Some(i) => Some(members.deep_view()[i as int]),
            None => None::<MemberDataView>,
        },
        r is Some ==> r->0 < members.len(),
{
    let ghost ms = members.deep_view();
    let n = members.len();
    let mut i: usize = 0;
    while i < n
        invariant
            n == members.len(),
            ms == members.deep_view(),
            i <= n,
            forall|j: int| 0 <= j < i ==> (#[trigger] ms[j]).user_id == user@,
        decreases n - i,
    {
        if !equal_str(members[i].user_id.as_str(), user) {
            assert(is_first_other(ms, user@, i as int));
            proof {
                let c = choose|p: int| is_first_other(ms, user@, p);
                if c < i {
                    assert(ms[c].user_id == user@);
                } else if c > i {
                    assert(ms[i as int].user_id == user@);
                }
            }
            return Some(i);
        }
        i = i + 1;
    }
    assert forall|p: int| !is_first_other(ms, user@, p) by {
        if 0 <= p < n {
            assert(ms[p].user_id == user@);
        }
    }
    None
}

/// What the chat list makes of one room (see `room_entry`).
fn make_room_entry(d: &JoinedRoomData, user: &str) -> (r: Option<(RoomItem, bool)>)
    ensures
        match r {
            Some((item, is_space)) => room_entry(d@, user@) == Some((item@, is_space)),
            None => room_entry(d@, user@) is None,
        },
{
    if d.is_left && !d.is_space {
        return None;
    }
    let avatar = if d.is_direct {
        clone_opt_string(&d.direct_avatar_uri)
    } else {
        clone_opt_string(&d.room_avatar_uri)
    };
    match &d.name {
        Some(n) => Some(
            (
                RoomItem {
                    avatar_uri: avatar,
                    id: d.id.clone(),
                    name: n.clone(),
                    is_public: d.is_public,
                    is_direct: d.is_direct,
                },
                d.is_space,
            ),
        ),
        None => match &d.members {
            Some(ms) => match find_other_member(ms, user) {
                Some(k) => Some(
                    (
                        RoomItem {
                            avatar_uri: avatar,
                            id: d.id.clone(),
                            name: ms[k].name.clone(),
                            is_public: d.is_public,
                            is_direct: d.is_direct,
                        },
                        false,
                    ),
                ),
                None => None,
            },
            None => None,
        },
    }
}

/// The chat list for the rooms of the client, as the logged-in user `user_id`
/// sees it: the rooms and spaces that `collect_rooms` finds, grouped as
/// `grouped` describes.
pub fn list_rooms_and_spaces(rooms_data: Vec<JoinedRoomData>, user_id: &str) -> (c: Conversations)
    requires
        collect_rooms(rooms_data.deep_view(), user_id@).1.len() > 0 ==> (ids_have_homeserver(
            collect_rooms(rooms_data.deep_view(), user_id@).0,
        ) && ids_have_homeserver(collect_rooms(rooms_data.deep_view(), user_id@).1)),
    ensures
        c@ == grouped(
            collect_rooms(rooms_data.deep_view(), user_id@).0,
            collect_rooms(rooms_data.deep_view(), user_id@).1,
        ),
{
    let ghost dv = rooms_data.deep_view();
    let n = rooms_data.len();
    let mut rooms: Vec<RoomItem> = Vec::new();
    let mut spaces: Vec<RoomItem> = Vec::new();
    let mut i: usize = 0;
    assert(dv.take(0) =~= Seq::<JoinedRoomDataView>::empty());
    while i < n
        invariant
            n == rooms_data.len(),
            dv == rooms_data.deep_view(),
            i <= n,
            (rooms.deep_view(), spaces.deep_view()) == collect_rooms(dv.take(i as int), user_id@),
        decreases n - i,
    {
        let d = &rooms_data[i];
        assert(d@ == dv[i as int]);
        assert(dv.take(i + 1).drop_last() =~= dv.take(i as int));
        assert(dv.take(i + 1).last() == dv[i as int]);
        let ghost rv = rooms.deep_view();
        let ghost sv = spaces.deep_view();
        match make_room_entry(d, user_id) {
            None => {},
            Some((item, is_space)) => {
                if is_space {
                    if !holds_item(&spaces, &item) {
                        spaces.push(item);
                        assert(spaces.deep_view() =~= sv.push(item@));
                    }
                } else {
                    rooms.push(item);
                    assert(rooms.deep_view() =~= rv.push(item@));
                }
            },
        }
        i = i + 1;
    }
    assert(dv.take(n as int) =~= dv);
    group_rooms_into_spaces(rooms, spaces)
}

/// A room of the public room directory: its avatar's thumbnail address, its
/// id and its name when it has one.
pub struct PublicRoomData {
    pub avatar_uri: Option<String>,
    pub room_id: String,
    pub name: Option<String>,
}

pub struct PublicRoomDataView {
    pub avatar_uri: Option<Seq<char>>,
    pub room_id: Seq<char>,
    pub name: Option<Seq<char>>,
}

impl View for PublicRoomData {
    type V = PublicRoomDataView;

    open spec fn view(&self) -> PublicRoomDataView {
        PublicRoomDataView {
            avatar_uri: self.avatar_uri.deep_view(),
            room_id: self.room_id@,
            name: self.name.deep_view(),
        }
    }
}

impl DeepView for PublicRoomData {
    type V = PublicRoomDataView;

    open spec fn deep_view(&self) -> PublicRoomDataView {
        self@
    }
}

/// The item for a public room: public, not direct, named "Unnamed" when it
/// has no name.
pub open spec fn public_item(p: PublicRoomDataView) -> RoomItemView {
    RoomItemView {
        avatar_uri: p.avatar_uri,
        id: p.room_id,
        name: match p.name {
            Some(n) => n,
            None => "Unnamed"@,
        },
        is_public: true,
        is_direct: false,
    }
}

/// The chat list of the public room directory: every room at the top level,
/// in the order of the directory, and no space.
pub fn public_rooms_and_spaces(chunk: Vec<PublicRoomData>) -> (c: Conversations)
    ensures
        c@ == grouped(
            chunk.deep_view().map_values(|p: PublicRoomDataView| public_item(p)),
            Seq::empty(),
        ),
        c@.rooms == chunk.deep_view().map_values(|p: PublicRoomDataView| public_item(p)),
        c@.spaces.len() == 0,
{
    let ghost pv = chunk.deep_view();
    let ghost items = pv.map_values(|p: PublicRoomDataView| public_item(p));
    let n = chunk.len();
    let mut rooms: Vec<RoomItem> = Vec::new();
    let mut i: usize = 0;
    while i < n
        invariant
            n == chunk.len(),
            pv == chunk.deep_view(),
            items == pv.map_values(|p: PublicRoomDataView| public_item(p)),
            i <= n,
            rooms.deep_view() == items.take(i as int),
        decreases n - i,
    {
        let p = &chunk[i];
        assert(p@ == pv[i as int]);
        let name = match &p.name {
            Some(x) => x.clone(),
            None => String::from_str("Unnamed"),
        };
        let ghost rv = rooms.deep_view();
        proof {
            reveal_strlit("Unnamed");
        }
        assert(items[i as int] == public_item(pv[i as int]));
        let item = RoomItem {
            avatar_uri: clone_opt_string(&p.avatar_uri),
            id: p.room_id.clone(),
            name,
            is_public: true,
            is_direct: false,
        };
        assert(item@.name == public_item(pv[i as int]).name);
        assert(item@ == public_item(pv[i as int]));
        let ghost iv = item@;
        rooms.push(item);
        assert(rooms.deep_view() =~= rv.push(iv));
        assert(items.take(i + 1) =~= items.take(i as int).push(items[i as int]));
        assert(rooms.deep_view() =~= items.take(i + 1));
        i = i + 1;
    }
    assert(items.take(n as int) =~= items);
    let spaces: Vec<RoomItem> = Vec::new();
    assert(spaces.deep_view() =~= Seq::<RoomItemView>::empty());
    let c = group_rooms_into_spaces(rooms, spaces);
    c
}

/// Whether the item of an invited room could be made.
pub open spec fn item_made() -> spec_fn(Result<RoomItem, String>) -> bool {
    |x: Result<RoomItem, String>| x is Ok
}

/// The item that was made.
pub open spec fn made_view() -> spec_fn(Result<RoomItem, String>) -> RoomItemView {
    |x: Result<RoomItem, String>| x->Ok_0@
}

/// The items that could be made, in order.
pub open spec fn made_items(items: Seq<Result<RoomItem, String>>) -> Seq<RoomItemView> {
    items.filter(item_made()).map_values(made_view())
}

/// The rooms the user is invited to: the items that could be made, in
/// order; rooms whose item could not be made are left out.
pub fn invited_rooms(items: Vec<Result<RoomItem, String>>) -> (r: Result<Vec<RoomItem>, String>)
    ensures
        r is Ok,
        r->Ok_0.deep_view() == made_items(items@),
{
    let ghost src = items@;
    let n = items.len();
    let mut rooms: Vec<RoomItem> = Vec::new();
    let mut i: usize = 0;
    assert(src.take(0).filter(item_made()) =~= Seq::<Result<RoomItem, String>>::empty()) by {
        reveal_with_fuel(Seq::<_>::filter, 1);
    }
    while i < n
        invariant
            n == items.len(),
            src == items@,
            i <= n,
            rooms.deep_view() == made_items(src.take(i as int)),
        decreases n - i,
    {
        assert(src.take(i + 1) =~= src.take(i as int).push(src[i as int]));
        proof {
            src.take(i as int).lemma_filter_push(src[i as int], item_made());
        }
        let ghost rv = rooms.deep_view();
        match &items[i] {
            Ok(item) => {
                proof {
                    let filt = src.take(i as int).filter(item_made());
                    assert(src[i as int] == items@[i as int]);
                    assert(filt.push(src[i as int]).map_values(made_view()) =~= filt.map_values(
                        made_view(),
                    ).push(item@));
                }
                rooms.push(item.clone());
                assert(rooms.deep_view() =~= made_items(src.take(i + 1)));
            },
            Err(_) => {
                assert(rooms.deep_view() =~= made_items(src.take(i + 1)));
            },
        }
        i = i + 1;
    }
    assert(src.take(n as int) =~= src);
    Ok(rooms)
}

/// The item for a room the user is invited to, given its avatar's
/// thumbnail address, its id, its name, and the creator found from its
/// creation event (`None` when the room has no creation content): the
/// room's name or else the creator's display name; public and not direct.
pub fn format_invited_room(
    avatar_uri: Option<String>,
    room_id: String,
    room_name: Option<String>,
    creator: Option<Result<Profile, FindUserError>>,
) -> (r: Result<RoomItem, String>)
    ensures
        match creator {
            None => r is Err && r->Err_0@ == "Content not found"@,
            Some(Err(_)) => r is Err && r->Err_0@ == "User not found"@,
            Some(Ok(p)) => r is Ok && r->Ok_0@ == (RoomItemView {
                avatar_uri: avatar_uri.deep_view(),
                id: room_id@,
                name: match room_name {
                    Some(n) => n@,
                    None => p.displayname@,
                },
                is_public: true,
                is_direct: false,
            }),
        },
{
    let profile = match creator {
        None => return Err(String::from_str("Content not found")),
        Some(Err(_)) => return Err(String::from_str("User not found")),
        Some(Ok(p)) => p,
    };
    let name = match room_name {
        Some(n) => n,
        None => profile.displayname,
    };
    Ok(RoomItem { avatar_uri, id: room_id, name, is_public: true, is_direct: false })
}

} // verus!
