//! What the voice section shows: which members, in which order, and how
//! each row looks.

use vstd::prelude::*;
use vstd::string::*;
use crate::colors::{parse_hex, parse_hex_spec, DARKISH_BLUE, TRANSPARENT};
use crate::config::{
    axis_gaps, corner_from_name, AxisAlignment, CornerAlignment, DisplayVoiceMembers, Gaps,
    TransportMode,
};
use crate::user::{User, UserView, UserVoiceState};
use crate::websocket::{clone_user, lemma_filter_identity, users_view};

verus! {

/// Strict lexicographic order of strings by code point, which is the order
/// of `String::cmp` (UTF-8 byte order agrees with code-point order).
pub open spec fn lex_lt(a: Seq<char>, b: Seq<char>) -> bool
    decreases a.len(),
{
    if a.len() == 0 {
        b.len() > 0
    } else if b.len() == 0 {
        false
    } else if a[0] != b[0] {
        a[0] < b[0]
    } else {
        lex_lt(a.drop_first(), b.drop_first())
    }
}

/// Whether `a` comes strictly before `b`.
pub fn str_lt(a: &str, b: &str) -> (r: bool)
    ensures
        r == lex_lt(a@, b@),
{
    let n = a.unicode_len();
    let m = b.unicode_len();
    let mut i: usize = 0;
    assert(a@.skip(0) =~= a@);
    assert(b@.skip(0) =~= b@);
    while i < n && i < m
        invariant
            n == a@.len(),
            m == b@.len(),
            i <= n,
            i <= m,
            lex_lt(a@, b@) == lex_lt(a@.skip(i as int), b@.skip(i as int)),
        decreases n - i,
    {
        let x = a.get_char(i);
        let y = b.get_char(i);
        if x != y {
            return x < y;
        }
        assert(a@.skip(i as int).drop_first() =~= a@.skip(i + 1));
        assert(b@.skip(i as int).drop_first() =~= b@.skip(i + 1));
        i = i + 1;
    }
    i < m
}

/// `sorted` with `x` inserted after every member whose id does not come
/// after `x`'s: one step of a stable insertion sort.
pub open spec fn insert_by_id(sorted: Seq<UserView>, x: UserView) -> Seq<UserView>
    decreases sorted.len(),
{
    if sorted.len() == 0 {
        seq![x]
    } else if lex_lt(x.id, sorted.last().id) {
        insert_by_id(sorted.drop_last(), x).push(sorted.last())
    } else {
        sorted.push(x)
    }
}

/// The members ordered by id; members with equal ids keep their order, as
/// with the stable `sort_by` on `String::cmp`.
pub open spec fn sort_by_id(s: Seq<UserView>) -> Seq<UserView>
    decreases s.len(),
{
    if s.len() == 0 {
        s
    } else {
        insert_by_id(sort_by_id(s.drop_last()), s.last())
    }
}

/// Whether a member is shown in the voice section.
pub open spec fn is_shown(u: UserView, mode: DisplayVoiceMembers, is_open: bool) -> bool {
    match mode {
        DisplayVoiceMembers::WhenSpeaking => u.voice_state == UserVoiceState::Speaking || is_open,
        _ => true,
    }
}

/// The members shown in the voice section, in the order shown.
pub open spec fn visible_users(users: Seq<UserView>, mode: DisplayVoiceMembers, is_open: bool) -> Seq<UserView> {
    sort_by_id(users).filter(|u: UserView| is_shown(u, mode, is_open))
}

proof fn lemma_insert_by_id(r: Seq<UserView>, x: UserView, p: int)
    requires
        0 <= p <= r.len(),
        forall|j: int| p <= j < r.len() ==> lex_lt(x.id, (#[trigger] r[j]).id),
        p == 0 || !lex_lt(x.id, r[p - 1].id),
    ensures
        insert_by_id(r, x) == r.take(p).push(x) + r.skip(p),
    decreases r.len() - p,
{
    if r.len() == 0 {
        assert(r.take(p).push(x) + r.skip(p) =~= seq![x]);
    } else if p == r.len() {
        assert(r.take(p).push(x) + r.skip(p) =~= r.push(x));
    } else {
        let t = r.drop_last();
        assert(lex_lt(x.id, r.last().id));
        assert forall|j: int| p <= j < t.len() implies lex_lt(x.id, (#[trigger] t[j]).id) by {
            assert(t[j] == r[j]);
        }
        if p > 0 {
            assert(t[p - 1] == r[p - 1]);
        }
        lemma_insert_by_id(t, x, p);
        assert(t.take(p).push(x) + t.skip(p) + seq![r.last()] =~= r.take(p).push(x) + r.skip(p));
    }
}

/// The members ordered by id, stably.
pub fn sorted_by_id(users: &Vec<User>) -> (r: Vec<User>)
    ensures
        users_view(r@) == sort_by_id(users_view(users@)),
{
    let mut r: Vec<User> = Vec::new();
    let mut i: usize = 0;
    assert(users_view(users@).take(0) =~= Seq::<UserView>::empty());
    while i < users.len()
        invariant
            i <= users@.len(),
            users_view(r@) == sort_by_id(users_view(users@).take(i as int)),
        decreases users.len() - i,
    {
        let x = clone_user(&users[i]);
        let ghost rv = users_view(r@);
        let mut p: usize = r.len();
        while p > 0 && str_lt(x.id.as_str(), r[p - 1].id.as_str())
            invariant
                p <= r@.len(),
                rv == users_view(r@),
                forall|j: int| p <= j < rv.len() ==> lex_lt(x@.id, (#[trigger] rv[j]).id),
            decreases p,
        {
            p = p - 1;
        }
        proof {
            lemma_insert_by_id(rv, x@, p as int);
            let pre = users_view(users@).take(i + 1);
            assert(pre.drop_last() =~= users_view(users@).take(i as int));
            assert(pre.last() == users@[i as int]@);
        }
        r.insert(p, x);
        assert(users_view(r@) =~= rv.take(p as int).push(users@[i as int]@) + rv.skip(p as int));
        i = i + 1;
    }
    assert(users_view(users@).take(users@.len() as int) =~= users_view(users@));
    r
}

fn shown(u: &User, mode: DisplayVoiceMembers, is_open: bool) -> (r: bool)
    ensures
        r == is_shown(u@, mode, is_open),
{
    match mode {
        DisplayVoiceMembers::WhenSpeaking => u.voice_state == UserVoiceState::Speaking || is_open,
        _ => true,
    }
}

/// The members shown in the voice section, in the order shown: ordered by
/// id, and, in the speaking-only mode, only those speaking unless the
/// overlay is open.
pub fn visible_voice_users(users: &Vec<User>, mode: DisplayVoiceMembers, is_open: bool) -> (r: Vec<User>)
    ensures
        users_view(r@) == visible_users(users_view(users@), mode, is_open),
{
    let sorted = sorted_by_id(users);
    let ghost pred = |u: UserView| is_shown(u, mode, is_open);
    let ghost sv = users_view(sorted@);
    let mut r: Vec<User> = Vec::new();
    let mut i: usize = 0;
    proof {
        reveal(Seq::filter);
        assert(sv.take(0) =~= Seq::<UserView>::empty());
        assert(users_view(r@) =~= Seq::<UserView>::empty());
    }
    while i < sorted.len()
        invariant
            i <= sorted@.len(),
            sv == users_view(sorted@),
            pred == (|u: UserView| is_shown(u, mode, is_open)),
            users_view(r@) == sv.take(i as int).filter(pred),
        decreases sorted.len() - i,
    {
        let ghost before = users_view(r@);
        if shown(&sorted[i], mode, is_open) {
            r.push(clone_user(&sorted[i]));
        }
        proof {
            let next = sv.take(i + 1);
            assert(next.drop_last() =~= sv.take(i as int));
            assert(next.last() == sorted@[i as int]@);
            reveal(Seq::filter);
            if pred(sorted@[i as int]@) {
                assert(users_view(r@) =~= before.push(sorted@[i as int]@));
            } else {
                assert(users_view(r@) =~= before);
            }
        }
        i = i + 1;
    }
    assert(sv.take(sv.len() as int) =~= sv);
    r
}

/// Whether the members are ordered by id.
pub open spec fn is_sorted_by_id(s: Seq<UserView>) -> bool {
    forall|i: int, j: int| 0 <= i < j < s.len() ==> !lex_lt(s[j].id, s[i].id)
}

proof fn lemma_lex_irreflexive(a: Seq<char>)
    ensures
        !lex_lt(a, a),
    decreases a.len(),
{
    if a.len() > 0 {
        lemma_lex_irreflexive(a.drop_first());
    }
}

proof fn lemma_lex_transitive(a: Seq<char>, b: Seq<char>, c: Seq<char>)
    requires
        lex_lt(a, b),
        lex_lt(b, c),
    ensures
        lex_lt(a, c),
    decreases a.len(),
{
    if a.len() > 0 && a[0] == b[0] && b[0] == c[0] {
        lemma_lex_transitive(a.drop_first(), b.drop_first(), c.drop_first());
    }
}

proof fn lemma_lex_total(a: Seq<char>, b: Seq<char>)
    requires
        a != b,
    ensures
        lex_lt(a, b) || lex_lt(b, a),
    decreases a.len(),
{
    if a.len() > 0 && b.len() > 0 && a[0] == b[0] {
        if a.drop_first() =~= b.drop_first() {
            assert forall|i: int| 0 <= i < a.len() implies a[i] == b[i] by {
                if i > 0 {
                    assert(a[i] == a.drop_first()[i - 1]);
                    assert(b[i] == b.drop_first()[i - 1]);
                }
            }
            assert(a =~= b);
        } else {
            lemma_lex_total(a.drop_first(), b.drop_first());
        }
    } else if a.len() == 0 && b.len() == 0 {
        assert(a =~= b);
    }
}

/// Whether `y` does not come after `z` and `x` comes before `y`: then `x`
/// comes before `z`.
proof fn lemma_lex_lt_le(x: Seq<char>, y: Seq<char>, z: Seq<char>)
    requires
        lex_lt(x, y),
        !lex_lt(z, y),
    ensures
        lex_lt(x, z),
{
    if y == z {
    } else {
        lemma_lex_total(y, z);
        lemma_lex_transitive(x, y, z);
    }
}

proof fn lemma_insert_by_id_props(s: Seq<UserView>, x: UserView)
    requires
        is_sorted_by_id(s),
    ensures
        is_sorted_by_id(insert_by_id(s, x)),
        insert_by_id(s, x).to_multiset() =~= s.to_multiset().insert(x),
    decreases s.len(),
{
    broadcast use vstd::seq_lib::group_to_multiset_ensures;
    broadcast use vstd::multiset::group_multiset_axioms;

    if s.len() == 0 {
        assert(seq![x] =~= Seq::<UserView>::empty().push(x));
    } else if lex_lt(x.id, s.last().id) {
        let t = s.drop_last();
        let last = s.last();
        assert(t.push(last) =~= s);
        assert forall|i: int, j: int| 0 <= i < j < t.len() implies !lex_lt(t[j].id, t[i].id) by {
            assert(t[i] == s[i] && t[j] == s[j]);
        }
        lemma_insert_by_id_props(t, x);
        let it = insert_by_id(t, x);
        let r = it.push(last);
        assert forall|i: int| 0 <= i < it.len() implies !lex_lt(last.id, (#[trigger] it[i]).id) by {
            assert(it.to_multiset().count(it[i]) > 0);
            if it[i] == x {
                lemma_lex_irreflexive(x.id);
                if lex_lt(last.id, x.id) {
                    lemma_lex_transitive(x.id, last.id, x.id);
                }
            } else {
                assert(t.to_multiset().count(it[i]) > 0);
                assert(t.contains(it[i]));
                let k = choose|k: int| 0 <= k < t.len() && t[k] == it[i];
                assert(s[k] == t[k]);
            }
        }
        assert forall|i: int, j: int| 0 <= i < j < r.len() implies !lex_lt(r[j].id, r[i].id) by {
            if j < it.len() {
                assert(r[i] == it[i] && r[j] == it[j]);
            } else {
                assert(r[i] == it[i]);
            }
        }
    } else {
        let r = s.push(x);
        assert forall|i: int, j: int| 0 <= i < j < r.len() implies !lex_lt(r[j].id, r[i].id) by {
            if j < s.len() {
                assert(r[i] == s[i] && r[j] == s[j]);
            } else {
                assert(r[i] == s[i]);
                if i < s.len() - 1 {
                    if lex_lt(x.id, s[i].id) {
                        lemma_lex_lt_le(x.id, s[i].id, s.last().id);
                    }
                }
            }
        }
    }
}

/// The voice section's order is by id, and ordering neither adds nor drops
/// a member.
pub proof fn sort_by_id_sorted_permutation(s: Seq<UserView>)
    ensures
        is_sorted_by_id(sort_by_id(s)),
        sort_by_id(s).to_multiset() == s.to_multiset(),
    decreases s.len(),
{
    broadcast use vstd::seq_lib::group_to_multiset_ensures;

    if s.len() > 0 {
        sort_by_id_sorted_permutation(s.drop_last());
        lemma_insert_by_id_props(sort_by_id(s.drop_last()), s.last());
        assert(s.drop_last().push(s.last()) =~= s);
    }
}

/// Everyone shown in the voice section is a member of the channel, and, in
/// the speaking-only mode with the overlay closed, speaking.
pub proof fn visible_users_are_members(users: Seq<UserView>, mode: DisplayVoiceMembers, is_open: bool, i: int)
    requires
        0 <= i < visible_users(users, mode, is_open).len(),
    ensures
        users.contains(visible_users(users, mode, is_open)[i]),
        is_shown(visible_users(users, mode, is_open)[i], mode, is_open),
{
    broadcast use vstd::seq_lib::group_to_multiset_ensures;

    let pred = |u: UserView| is_shown(u, mode, is_open);
    let sorted = sort_by_id(users);
    sort_by_id_sorted_permutation(users);
    sorted.lemma_filter_pred(pred, i);
    let v = sorted.filter(pred)[i];
    #[allow(deprecated)]
    sorted.filter_lemma(pred);
    lemma_filter_subset(sorted, pred, i);
    assert(sorted.to_multiset().count(v) > 0);
    assert(users.to_multiset().count(v) > 0);
}

/// In the speaking-only mode, a member is listed exactly when it is a
/// member of the channel and speaking, or the overlay is open.
pub proof fn when_speaking_lists_speakers(users: Seq<UserView>, is_open: bool)
    ensures
        forall|i: int| 0 <= i < visible_users(users, DisplayVoiceMembers::WhenSpeaking, is_open).len()
            ==> is_open || (#[trigger] visible_users(users, DisplayVoiceMembers::WhenSpeaking, is_open)[i]).voice_state
            == UserVoiceState::Speaking,
        forall|u: UserView| #[trigger] visible_users(users, DisplayVoiceMembers::WhenSpeaking, is_open).contains(u)
            <==> (users.contains(u) && (u.voice_state == UserVoiceState::Speaking || is_open)),
{
    broadcast use vstd::seq_lib::group_to_multiset_ensures;

    let mode = DisplayVoiceMembers::WhenSpeaking;
    let pred = |u: UserView| is_shown(u, mode, is_open);
    let sorted = sort_by_id(users);
    let vis = visible_users(users, mode, is_open);
    sort_by_id_sorted_permutation(users);
    assert forall|i: int| 0 <= i < vis.len() implies is_open || (#[trigger] vis[i]).voice_state
        == UserVoiceState::Speaking by {
        sorted.lemma_filter_pred(pred, i);
    }
    assert forall|u: UserView| #[trigger] vis.contains(u) <==> (users.contains(u) && (u.voice_state
        == UserVoiceState::Speaking || is_open)) by {
        if vis.contains(u) {
            let i = choose|i: int| 0 <= i < vis.len() && vis[i] == u;
            visible_users_are_members(users, mode, is_open, i);
        }
        if users.contains(u) && (u.voice_state == UserVoiceState::Speaking || is_open) {
            assert(users.to_multiset().count(u) > 0);
            assert(sorted.to_multiset().count(u) > 0);
            let k = choose|k: int| 0 <= k < sorted.len() && sorted[k] == u;
            sorted.lemma_filter_contains(pred, k);
        }
    }
}

/// In the other modes every member is listed, each as often as in the
/// channel, in order of id.
pub proof fn other_modes_list_everyone(users: Seq<UserView>, mode: DisplayVoiceMembers, is_open: bool)
    requires
        mode != DisplayVoiceMembers::WhenSpeaking,
    ensures
        visible_users(users, mode, is_open).to_multiset() == users.to_multiset(),
        is_sorted_by_id(visible_users(users, mode, is_open)),
{
    let pred = |u: UserView| is_shown(u, mode, is_open);
    let sorted = sort_by_id(users);
    sort_by_id_sorted_permutation(users);
    lemma_filter_identity(sorted, pred);
}

proof fn lemma_filter_subset(s: Seq<UserView>, pred: spec_fn(UserView) -> bool, i: int)
    requires
        0 <= i < s.filter(pred).len(),
    ensures
        s.contains(s.filter(pred)[i]),
    decreases s.len(),
{
    reveal(Seq::filter);
    let t = s.drop_last();
    if pred(s.last()) && i == s.filter(pred).len() - 1 {
        assert(s[s.len() - 1] == s.last());
    } else {
        lemma_filter_subset(t, pred, i);
        let k = choose|k: int| 0 <= k < t.len() && t[k] == t.filter(pred)[i];
        assert(s[k] == t[k]);
    }
}

/// The colour of the ring around a member's avatar, as RGB.
pub open spec fn border_color(s: UserVoiceState) -> Option<(u8, u8, u8)> {
    match s {
        UserVoiceState::Speaking => Some((47u8, 186u8, 139u8)),
        UserVoiceState::Deafened | UserVoiceState::Muted => Some((218u8, 62u8, 68u8)),
        _ => None,
    }
}

/// Where a member's avatar is fetched from: nowhere for a member without
/// an avatar.
pub open spec fn avatar_url(u: UserView) -> Seq<char> {
    if u.avatar.len() == 0 {
        Seq::empty()
    } else {
        "https://cdn.discordapp.com/avatars/"@ + u.id + "/"@ + u.avatar + ".png?size=80"@
    }
}

/// The avatar's address and the colour of the ring around it.
pub fn avatar_url_and_border(user: &User) -> (r: (String, Option<(u8, u8, u8)>))
    ensures
        r.0@ == avatar_url(user@),
        r.1 == border_color(user.voice_state),
{
    let border = match user.voice_state {
        UserVoiceState::Speaking => Some((47u8, 186u8, 139u8)),
        UserVoiceState::Deafened | UserVoiceState::Muted => Some((218u8, 62u8, 68u8)),
        _ => None,
    };
    let url = if user.avatar.as_str().is_empty() {
        String::new()
    } else {
        let mut u = String::from_str("https://cdn.discordapp.com/avatars/");
        u.append(user.id.as_str());
        u.append("/");
        u.append(user.avatar.as_str());
        u.append(".png?size=80");
        u
    };
    (url, border)
}

/// The background of a member's row: the configured colour where it
/// parses, else dark blue.
pub fn row_background(background: &Option<String>) -> (r: u32)
    ensures
        r == match background {
            Some(b) => match parse_hex_spec(b@) {
                Some(c) => c,
                None => DARKISH_BLUE,
            },
            None => DARKISH_BLUE,
        },
{
    match background {
        Some(b) => match parse_hex(b.as_str()) {
            Some(c) => c,
            None => DARKISH_BLUE,
        },
        None => DARKISH_BLUE,
    }
}

/// The opacity of a member's row in percent: rows of silent members are
/// dimmed in the semi-transparent mode while the overlay is closed.
pub fn row_opacity_percent(user: &User, is_voice_semitransparent: bool, is_open: bool) -> (r: u8)
    ensures
        r == if user.voice_state != UserVoiceState::Speaking && is_voice_semitransparent && !is_open {
            75u8
        } else {
            90u8
        },
{
    let is_speaking = user.voice_state == UserVoiceState::Speaking;
    if !is_speaking && (is_voice_semitransparent && !is_open) {
        75
    } else {
        90
    }
}

/// The icons next to a member's name.
#[derive(Debug, Clone, Copy, PartialEq, Eq, Structural)]
pub struct LabelIcons {
    pub muted: bool,
    pub deafened: bool,
    pub streaming: bool,
}

/// The icons next to a member's name: muted, deafened, streaming.
pub fn label_icons(user: &User) -> (r: LabelIcons)
    ensures
        r.muted == (user.voice_state == UserVoiceState::Muted),
        r.deafened == (user.voice_state == UserVoiceState::Deafened),
        r.streaming == user.streaming,
{
    LabelIcons {
        muted: user.voice_state == UserVoiceState::Muted,
        deafened: user.voice_state == UserVoiceState::Deafened,
        streaming: user.streaming,
    }
}

/// The direction in which a row's menu opens along an axis: away from the
/// anchoring edge, or not at all when centred.
pub fn axis_multiplier(a: AxisAlignment) -> (r: i32)
    ensures
        r == match a {
            AxisAlignment::Start => 1i32,
            AxisAlignment::End => -1i32,
            AxisAlignment::Center => 0i32,
        },
{
    match a {
        AxisAlignment::Start => 1,
        AxisAlignment::End => -1,
        AxisAlignment::Center => 0,
    }
}

/// Whether a member's row has a context menu: not for the local user, and
/// only over RPC.
pub fn can_context_menu(local_user_id: &String, user_id: &String, mode: TransportMode) -> (r: bool)
    ensures
        r == (local_user_id@ != user_id@ && mode == TransportMode::Ipc),
{
    !(*local_user_id == *user_id) && mode == TransportMode::Ipc
}

/// One row of the voice section.
#[derive(Debug)]
pub struct VoiceRow {
    /// The member, named as the row shows the name.
    pub user: User,
    pub is_open: bool,
    pub is_right_aligned: bool,
    pub is_voice_semitransparent: bool,
    /// Whether the row offers a context menu.
    pub can_context_menu: bool,
    /// The configured row background, as given.
    pub background: Option<String>,
    /// The directions in which the row's menu opens.
    pub x_mult: i32,
    pub y_mult: i32,
}

/// How the voice section is laid out and what it lists.
#[derive(Debug)]
pub struct VoiceSectionLayout {
    /// The corner or edge that the section is anchored to.
    pub alignment: CornerAlignment,
    /// The padding that keeps the section away from its edges.
    pub gaps: Gaps,
    /// Whether the section hugs the right edge.
    pub is_right_aligned: bool,
    /// The directions in which a row's menu opens.
    pub x_mult: i32,
    pub y_mult: i32,
    /// Whether silent members' rows are dimmed.
    pub is_voice_semitransparent: bool,
    /// The rows, in order.
    pub rows: Vec<VoiceRow>,
}

/// The menu direction along an axis.
pub open spec fn axis_mult(a: AxisAlignment) -> i32 {
    match a {
        AxisAlignment::Start => 1i32,
        AxisAlignment::End => -1i32,
        AxisAlignment::Center => 0i32,
    }
}

/// Whether `shown` is the name a row shows for a member named `name`: the
/// name itself, or in streamer mode what `censor` makes of it.
pub open spec fn shown_name<F: Fn(&String) -> String>(censor: F, is_censor: bool, name: Seq<char>, shown: String) -> bool {
    if is_censor {
        exists|s: String| s@ == name && #[trigger] call_ensures(censor, (&s,), shown)
    } else {
        shown@ == name
    }
}

/// Whether `row` is the row of the layout for the member `v`.
pub open spec fn is_row_for<F: Fn(&String) -> String>(
    row: VoiceRow,
    v: UserView,
    censor: F,
    is_open: bool,
    is_censor: bool,
    alignment: CornerAlignment,
    display_voice_members: DisplayVoiceMembers,
    user_row_background: Option<String>,
    local_user_id: Seq<char>,
    transport_mode: TransportMode,
) -> bool {
    &&& row.user@ == UserView { name: row.user.name@, ..v }
    &&& shown_name(censor, is_censor, v.name, row.user.name)
    &&& row.is_open == is_open
    &&& row.is_right_aligned == (alignment.x == AxisAlignment::End)
    &&& row.is_voice_semitransparent == (display_voice_members == DisplayVoiceMembers::AlwaysSemiTransparent)
    &&& row.can_context_menu == (local_user_id != v.id && transport_mode == TransportMode::Ipc)
    &&& row.background == user_row_background
    &&& row.x_mult == axis_mult(alignment.x)
    &&& row.y_mult == axis_mult(alignment.y)
}

fn clone_opt_string(o: &Option<String>) -> (r: Option<String>)
    ensures
        r == *o,
{
    match o {
        Some(s) => Some(s.clone()),
        None => None,
    }
}

/// Lays out the voice section: where it sits (from the configured alignment
/// name and offsets), which members it lists in which order (from the
/// display mode and whether the overlay is open), and each member's row. In
/// streamer mode each row shows the member's name as `censor` gives it.
pub fn voice_section_layout<F: Fn(&String) -> String>(
    voice_users: &Vec<User>,
    is_open: bool,
    is_censor: bool,
    user_alignment: &str,
    user_offset_x: i32,
    user_offset_y: i32,
    display_voice_members: DisplayVoiceMembers,
    user_row_background: &Option<String>,
    local_user_id: &String,
    transport_mode: TransportMode,
    censor: F,
) -> (r: VoiceSectionLayout)
    requires
        forall|s: &String| #[trigger] censor.requires((s,)),
    ensures
        r.alignment == corner_from_name(user_alignment@),
        (r.gaps.top, r.gaps.bottom) == axis_gaps(r.alignment.y, user_offset_y),
        (r.gaps.left, r.gaps.right) == axis_gaps(r.alignment.x, user_offset_x),
        r.is_right_aligned == (r.alignment.x == AxisAlignment::End),
        r.x_mult == axis_mult(r.alignment.x),
        r.y_mult == axis_mult(r.alignment.y),
        r.is_voice_semitransparent == (display_voice_members == DisplayVoiceMembers::AlwaysSemiTransparent),
        r.rows@.len() == visible_users(users_view(voice_users@), display_voice_members, is_open).len(),
        forall|i: int| 0 <= i < r.rows@.len() ==> is_row_for(
            #[trigger] r.rows@[i],
            visible_users(users_view(voice_users@), display_voice_members, is_open)[i],
            censor,
            is_open,
            is_censor,
            r.alignment,
            display_voice_members,
            *user_row_background,
            local_user_id@,
            transport_mode,
        ),
{
    let alignment = CornerAlignment::from_str(user_alignment);
    let gaps = alignment.to_gaps(user_offset_x, user_offset_y);
    let is_right_aligned = alignment.x == AxisAlignment::End;
    let x_mult = axis_multiplier(alignment.x);
    let y_mult = axis_multiplier(alignment.y);
    let is_voice_semitransparent = display_voice_members == DisplayVoiceMembers::AlwaysSemiTransparent;
    let visible = visible_voice_users(voice_users, display_voice_members, is_open);
    let ghost vis = visible_users(users_view(voice_users@), display_voice_members, is_open);
    let mut rows: Vec<VoiceRow> = Vec::new();
    let mut i: usize = 0;
    while i < visible.len()
        invariant
            i <= visible@.len(),
            users_view(visible@) == vis,
            rows@.len() == i,
            forall|s: &String| #[trigger] censor.requires((s,)),
            alignment == corner_from_name(user_alignment@),
            is_right_aligned == (alignment.x == AxisAlignment::End),
            x_mult == axis_mult(alignment.x),
            y_mult == axis_mult(alignment.y),
            is_voice_semitransparent == (display_voice_members == DisplayVoiceMembers::AlwaysSemiTransparent),
            forall|k: int| 0 <= k < i ==> is_row_for(
                #[trigger] rows@[k],
                vis[k],
                censor,
                is_open,
                is_censor,
                alignment,
                display_voice_members,
                *user_row_background,
                local_user_id@,
                transport_mode,
            ),
        decreases visible.len() - i,
    {
        let src = &visible[i];
        let mut u = clone_user(src);
        if is_censor {
            let shown = censor(&src.name);
            proof {
                assert(call_ensures(censor, (&src.name,), shown));
            }
            u.name = shown;
        }
        let can_menu = can_context_menu(local_user_id, &src.id, transport_mode);
        let row = VoiceRow {
            user: u,
            is_open,
            is_right_aligned,
            is_voice_semitransparent,
            can_context_menu: can_menu,
            background: clone_opt_string(user_row_background),
            x_mult,
            y_mult,
        };
        assert(vis[i as int] == visible@[i as int]@);
        let ghost before = rows@;
        rows.push(row);
        assert forall|k: int| 0 <= k < i + 1 implies is_row_for(
            #[trigger] rows@[k],
            vis[k],
            censor,
            is_open,
            is_censor,
            alignment,
            display_voice_members,
            *user_row_background,
            local_user_id@,
            transport_mode,
        ) by {
            if k < i {
                assert(rows@[k] == before[k]);
            }
        }
        i = i + 1;
    }
    VoiceSectionLayout {
        alignment,
        gaps,
        is_right_aligned,
        x_mult,
        y_mult,
        is_voice_semitransparent,
        rows,
    }
}

/// How one member's row looks.
#[derive(Debug)]
pub struct UserRowStyle {
    /// The row's background as ARGB.
    pub background: u32,
    /// The row's opacity in percent.
    pub opacity_percent: u8,
    /// Where the avatar comes from.
    pub avatar_url: String,
    /// The colour of the ring around the avatar, as RGB.
    pub border: Option<(u8, u8, u8)>,
    /// The icons next to the name.
    pub icons: LabelIcons,
}

/// The look of a member's row.
pub fn user_row_style(user: &User, is_open: bool, is_voice_semitransparent: bool, background: &Option<String>) -> (r: UserRowStyle)
    ensures
        r.background == match background {
            Some(b) => match parse_hex_spec(b@) {
                Some(c) => c,
                None => DARKISH_BLUE,
            },
            None => DARKISH_BLUE,
        },
        r.opacity_percent == if user.voice_state != UserVoiceState::Speaking && is_voice_semitransparent && !is_open {
            75u8
        } else {
            90u8
        },
        r.avatar_url@ == avatar_url(user@),
        r.border == border_color(user.voice_state),
        r.icons.muted == (user.voice_state == UserVoiceState::Muted),
        r.icons.deafened == (user.voice_state == UserVoiceState::Deafened),
        r.icons.streaming == user.streaming,
{
    let (url, border) = avatar_url_and_border(user);
    UserRowStyle {
        background: row_background(background),
        opacity_percent: row_opacity_percent(user, is_voice_semitransparent, is_open),
        avatar_url: url,
        border,
        icons: label_icons(user),
    }
}

/// The swatch beside a colour input: the colour typed so far where it
/// parses, else transparent.
pub fn swatch_color(value: &str) -> (r: u32)
    ensures
        r == match parse_hex_spec(value@) {
            Some(c) => c,
            None => TRANSPARENT,
        },
{
    match parse_hex(value) {
        Some(c) => c,
        None => TRANSPARENT,
    }
}

} // verus!
