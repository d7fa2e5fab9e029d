//! Local mirror of server-authoritative channel and user records.
//!
//! Records are held sorted strictly ascending by identifier, so snapshots
//! are stable for consumers regardless of the order updates arrived in.
//! Updates carry optional fields and are merged: a field left absent never
//! changes the stored value, a field supplied always overwrites it.

use vstd::prelude::*;
use crate::types::{Channel, ChannelView, User, UserView};

verus! {

/// A partial channel record received from the server; absent fields leave
/// the cached record untouched.
#[derive(Debug)]
pub struct ChannelStateUpdate {
    pub id: u32,
    pub name: Option<String>,
    pub parent_id: Option<u32>,
}

/// Mathematical model of a [`ChannelStateUpdate`].
pub ghost struct ChannelUpdateView {
    pub id: u32,
    pub name: Option<Seq<char>>,
    pub parent_id: Option<u32>,
}

impl View for ChannelStateUpdate {
    type V = ChannelUpdateView;

    open spec fn view(&self) -> ChannelUpdateView {
        ChannelUpdateView {
            id: self.id,
            name: match self.name {
                Some(n) => Some(n@),
                None => None,
            },
            parent_id: self.parent_id,
        }
    }
}

/// A partial user record received from the server; absent fields leave the
/// cached record untouched.
#[derive(Debug)]
pub struct UserStateUpdate {
    pub id: u32,
    pub name: Option<String>,
    pub channel_id: Option<u32>,
    pub muted: Option<bool>,
    pub deafened: Option<bool>,
    pub talking: Option<bool>,
}

/// Mathematical model of a [`UserStateUpdate`].
pub ghost struct UserUpdateView {
    pub id: u32,
    pub name: Option<Seq<char>>,
    pub channel_id: Option<u32>,
    pub muted: Option<bool>,
    pub deafened: Option<bool>,
    pub talking: Option<bool>,
}

impl View for UserStateUpdate {
    type V = UserUpdateView;

    open spec fn view(&self) -> UserUpdateView {
        UserUpdateView {
            id: self.id,
            name: match self.name {
                Some(n) => Some(n@),
                None => None,
            },
            channel_id: self.channel_id,
            muted: self.muted,
            deafened: self.deafened,
            talking: self.talking,
        }
    }
}

/// Identifiers strictly increase along the sequence, so each id occurs at
/// most once.
pub open spec fn channel_ids_sorted(s: Seq<ChannelView>) -> bool {
    forall|i: int, j: int| 0 <= i < j < s.len() ==> s[i].id < s[j].id
}

/// Identifiers strictly increase along the sequence, so each id occurs at
/// most once.
pub open spec fn user_ids_sorted(s: Seq<UserView>) -> bool {
    forall|i: int, j: int| 0 <= i < j < s.len() ==> s[i].id < s[j].id
}

/// Some record in `s` carries identifier `id`.
pub open spec fn has_channel_id(s: Seq<ChannelView>, id: u32) -> bool {
    exists|i: int| 0 <= i < s.len() && s[i].id == id
}

/// Index of the record carrying `id`; meaningful when `has_channel_id`.
pub open spec fn channel_index(s: Seq<ChannelView>, id: u32) -> int {
    choose|i: int| 0 <= i < s.len() && s[i].id == id
}

/// The record carrying `id`; meaningful when `has_channel_id`.
pub open spec fn channel_with_id(s: Seq<ChannelView>, id: u32) -> ChannelView {
    s[channel_index(s, id)]
}

/// Some record in `s` carries identifier `id`.
pub open spec fn has_user_id(s: Seq<UserView>, id: u32) -> bool {
    exists|i: int| 0 <= i < s.len() && s[i].id == id
}

/// Index of the record carrying `id`; meaningful when `has_user_id`.
pub open spec fn user_index(s: Seq<UserView>, id: u32) -> int {
    choose|i: int| 0 <= i < s.len() && s[i].id == id
}

/// The record carrying `id`; meaningful when `has_user_id`.
pub open spec fn user_with_id(s: Seq<UserView>, id: u32) -> UserView {
    s[user_index(s, id)]
}

/// The record a channel starts from when an update names an id not yet
/// cached: empty name, no parent.
pub open spec fn fresh_channel(id: u32) -> ChannelView {
    ChannelView { id, name: Seq::<char>::empty(), parent_id: None }
}

/// The record a user starts from when an update names an id not yet
/// cached: placeholder name, channel 0, all flags false.
pub open spec fn fresh_user(id: u32) -> UserView {
    UserView {
        id,
        name: "Unknown"@,
        channel_id: 0,
        muted: false,
        deafened: false,
        talking: false,
    }
}

/// Field-wise merge: each field supplied by the update overwrites the
/// prior value, each field left absent keeps it.
pub open spec fn merge_channel(prior: ChannelView, u: ChannelUpdateView) -> ChannelView {
    ChannelView {
        id: prior.id,
        name: match u.name {
            Some(n) => n,
            None => prior.name,
        },
        parent_id: match u.parent_id {
            Some(p) => Some(p),
            None => prior.parent_id,
        },
    }
}

/// Field-wise merge: each field supplied by the update overwrites the
/// prior value, each field left absent keeps it.
pub open spec fn merge_user(prior: UserView, u: UserUpdateView) -> UserView {
    UserView {
        id: prior.id,
        name: match u.name {
            Some(n) => n,
            None => prior.name,
        },
        channel_id: match u.channel_id {
            Some(c) => c,
            None => prior.channel_id,
        },
        muted: match u.muted {
            Some(m) => m,
            None => prior.muted,
        },
        deafened: match u.deafened {
            Some(d) => d,
            None => prior.deafened,
        },
        talking: match u.talking {
            Some(t) => t,
            None => prior.talking,
        },
    }
}

/// Effect of one channel update on a sequence sorted ascending by id:
/// merge into the record with the update's id, or insert a fresh merged
/// record at its sorted position.
pub open spec fn spec_apply_channel(s: Seq<ChannelView>, u: ChannelUpdateView) -> Seq<ChannelView>
    decreases s.len(),
{
    if s.len() == 0 {
        seq![merge_channel(fresh_channel(u.id), u)]
    } else if s[0].id < u.id {
        seq![s[0]] + spec_apply_channel(s.skip(1), u)
    } else if s[0].id == u.id {
        seq![merge_channel(s[0], u)] + s.skip(1)
    } else {
        seq![merge_channel(fresh_channel(u.id), u)] + s
    }
}

/// Effect of one user update on a sequence sorted ascending by id.
pub open spec fn spec_apply_user(s: Seq<UserView>, u: UserUpdateView) -> Seq<UserView>
    decreases s.len(),
{
    if s.len() == 0 {
        seq![merge_user(fresh_user(u.id), u)]
    } else if s[0].id < u.id {
        seq![s[0]] + spec_apply_user(s.skip(1), u)
    } else if s[0].id == u.id {
        seq![merge_user(s[0], u)] + s.skip(1)
    } else {
        seq![merge_user(fresh_user(u.id), u)] + s
    }
}

/// Effect of removing the user with identifier `id` from a sequence
/// sorted ascending by id; the sequence is unchanged when no record
/// carries `id`.
pub open spec fn spec_remove_user(s: Seq<UserView>, id: u32) -> Seq<UserView>
    decreases s.len(),
{
    if s.len() == 0 {
        s
    } else if s[0].id < id {
        seq![s[0]] + spec_remove_user(s.skip(1), id)
    } else if s[0].id == id {
        s.skip(1)
    } else {
        s
    }
}

/// On a prefix of records with smaller ids, one channel update is an
/// in-place merge at the split point or an insertion there.
proof fn lemma_apply_channel_split(s: Seq<ChannelView>, u: ChannelUpdateView, i: int)
    requires
        0 <= i <= s.len(),
        forall|j: int| 0 <= j < i ==> s[j].id < u.id,
    ensures
        i < s.len() && s[i].id == u.id ==> spec_apply_channel(s, u) =~= s.update(
            i,
            merge_channel(s[i], u),
        ),
        i == s.len() || s[i].id > u.id ==> spec_apply_channel(s, u) =~= s.insert(
            i,
            merge_channel(fresh_channel(u.id), u),
        ),
    decreases i,
{
    if i == 0 {
        if s.len() == 0 {
            assert(spec_apply_channel(s, u) =~= s.insert(0, merge_channel(fresh_channel(u.id), u)));
        } else if s[0].id == u.id {
            assert(spec_apply_channel(s, u) =~= s.update(0, merge_channel(s[0], u)));
        } else if s[0].id > u.id {
            assert(spec_apply_channel(s, u) =~= s.insert(0, merge_channel(fresh_channel(u.id), u)));
        }
    } else {
        lemma_apply_channel_split(s.skip(1), u, i - 1);
        if i < s.len() && s[i].id == u.id {
            assert(s.skip(1).update(i - 1, merge_channel(s[i], u)) =~= s.update(
                i,
                merge_channel(s[i], u),
            ).skip(1));
            assert(spec_apply_channel(s, u) =~= s.update(i, merge_channel(s[i], u)));
        } else if i == s.len() || s[i].id > u.id {
            assert(s.skip(1).insert(i - 1, merge_channel(fresh_channel(u.id), u)) =~= s.insert(
                i,
                merge_channel(fresh_channel(u.id), u),
            ).skip(1));
            assert(spec_apply_channel(s, u) =~= s.insert(
                i,
                merge_channel(fresh_channel(u.id), u),
            ));
        }
    }
}

/// On a prefix of records with smaller ids, one user update is an
/// in-place merge at the split point or an insertion there.
proof fn lemma_apply_user_split(s: Seq<UserView>, u: UserUpdateView, i: int)
    requires
        0 <= i <= s.len(),
        forall|j: int| 0 <= j < i ==> s[j].id < u.id,
    ensures
        i < s.len() && s[i].id == u.id ==> spec_apply_user(s, u) =~= s.update(
            i,
            merge_user(s[i], u),
        ),
        i == s.len() || s[i].id > u.id ==> spec_apply_user(s, u) =~= s.insert(
            i,
            merge_user(fresh_user(u.id), u),
        ),
    decreases i,
{
    if i == 0 {
        if s.len() == 0 {
            assert(spec_apply_user(s, u) =~= s.insert(0, merge_user(fresh_user(u.id), u)));
        } else if s[0].id == u.id {
            assert(spec_apply_user(s, u) =~= s.update(0, merge_user(s[0], u)));
        } else if s[0].id > u.id {
            assert(spec_apply_user(s, u) =~= s.insert(0, merge_user(fresh_user(u.id), u)));
        }
    } else {
        lemma_apply_user_split(s.skip(1), u, i - 1);
        if i < s.len() && s[i].id == u.id {
            assert(s.skip(1).update(i - 1, merge_user(s[i], u)) =~= s.update(
                i,
                merge_user(s[i], u),
            ).skip(1));
            assert(spec_apply_user(s, u) =~= s.update(i, merge_user(s[i], u)));
        } else if i == s.len() || s[i].id > u.id {
            assert(s.skip(1).insert(i - 1, merge_user(fresh_user(u.id), u)) =~= s.insert(
                i,
                merge_user(fresh_user(u.id), u),
            ).skip(1));
            assert(spec_apply_user(s, u) =~= s.insert(i, merge_user(fresh_user(u.id), u)));
        }
    }
}

/// On a prefix of records with smaller ids, removal deletes the record at
/// the split point or leaves the sequence unchanged.
proof fn lemma_remove_user_split(s: Seq<UserView>, id: u32, i: int)
    requires
        0 <= i <= s.len(),
        forall|j: int| 0 <= j < i ==> s[j].id < id,
    ensures
        i < s.len() && s[i].id == id ==> spec_remove_user(s, id) =~= s.remove(i),
        i == s.len() || s[i].id > id ==> spec_remove_user(s, id) =~= s,
    decreases i,
{
    if i == 0 {
        if 0 < s.len() && s[0].id == id {
            assert(spec_remove_user(s, id) =~= s.remove(0));
        }
    } else {
        lemma_remove_user_split(s.skip(1), id, i - 1);
        if i < s.len() && s[i].id == id {
            assert(s.skip(1).remove(i - 1) =~= s.remove(i).skip(1));
            assert(spec_remove_user(s, id) =~= s.remove(i));
        } else if i == s.len() || s[i].id > id {
            assert(spec_remove_user(s, id) =~= s);
        }
    }
}

/// Split point of `id` in a sequence sorted ascending by id: the index of
/// the record carrying `id` when present, else its insertion position.
proof fn lemma_split_point_channel(s: Seq<ChannelView>, id: u32) -> (i: int)
    requires
        channel_ids_sorted(s),
    ensures
        0 <= i <= s.len(),
        forall|j: int| 0 <= j < i ==> s[j].id < id,
        i < s.len() ==> s[i].id >= id,
        has_channel_id(s, id) ==> i < s.len() && s[i].id == id,
    decreases s.len(),
{
    if s.len() == 0 {
        0
    } else if s[0].id < id {
        let k = lemma_split_point_channel(s.skip(1), id);
        assert(has_channel_id(s, id) ==> has_channel_id(s.skip(1), id)) by {
            if has_channel_id(s, id) {
                let w = channel_index(s, id);
                assert(s.skip(1)[w - 1].id == id);
            }
        }
        assert forall|j: int| 0 <= j < k + 1 implies s[j].id < id by {
            if j > 0 {
                assert(s[j] == s.skip(1)[j - 1]);
            }
        }
        k + 1
    } else {
        assert(has_channel_id(s, id) ==> s[0].id == id) by {
            if has_channel_id(s, id) {
                let w = channel_index(s, id);
                assert(w > 0 ==> s[0].id < s[w].id);
            }
        }
        0
    }
}

/// Split point of `id` in a sequence sorted ascending by id: the index of
/// the record carrying `id` when present, else its insertion position.
proof fn lemma_split_point_user(s: Seq<UserView>, id: u32) -> (i: int)
    requires
        user_ids_sorted(s),
    ensures
        0 <= i <= s.len(),
        forall|j: int| 0 <= j < i ==> s[j].id < id,
        i < s.len() ==> s[i].id >= id,
        has_user_id(s, id) ==> i < s.len() && s[i].id == id,
    decreases s.len(),
{
    if s.len() == 0 {
        0
    } else if s[0].id < id {
        let k = lemma_split_point_user(s.skip(1), id);
        assert(has_user_id(s, id) ==> has_user_id(s.skip(1), id)) by {
            if has_user_id(s, id) {
                let w = user_index(s, id);
                assert(s.skip(1)[w - 1].id == id);
            }
        }
        assert forall|j: int| 0 <= j < k + 1 implies s[j].id < id by {
            if j > 0 {
                assert(s[j] == s.skip(1)[j - 1]);
            }
        }
        k + 1
    } else {
        assert(has_user_id(s, id) ==> s[0].id == id) by {
            if has_user_id(s, id) {
                let w = user_index(s, id);
                assert(w > 0 ==> s[0].id < s[w].id);
            }
        }
        0
    }
}

/// Merge law for channel updates, for every update applied to every sorted
/// cache content: the updated record merges field-wise onto the prior
/// record (or onto the fresh baseline when the id is new), so a field left
/// absent in the update never changes the stored value and a field
/// supplied always overwrites it; every record with another id is
/// untouched; and the result is again sorted.
#[verifier::rlimit(100)]
pub proof fn lemma_channel_update_merges(s: Seq<ChannelView>, u: ChannelUpdateView)
    requires
        channel_ids_sorted(s),
    ensures
        channel_ids_sorted(spec_apply_channel(s, u)),
        has_channel_id(spec_apply_channel(s, u), u.id),
        channel_with_id(spec_apply_channel(s, u), u.id) == merge_channel(
            if has_channel_id(s, u.id) {
                channel_with_id(s, u.id)
            } else {
                fresh_channel(u.id)
            },
            u,
        ),
        forall|id2: u32|
            id2 != u.id ==> has_channel_id(spec_apply_channel(s, u), id2) == has_channel_id(
                s,
                id2,
            ),
        forall|id2: u32|
            id2 != u.id && has_channel_id(s, id2) ==> channel_with_id(
                spec_apply_channel(s, u),
                id2,
            ) == channel_with_id(s, id2),
{
    let i = lemma_split_point_channel(s, u.id);
    lemma_apply_channel_split(s, u, i);
    let r = spec_apply_channel(s, u);
    if has_channel_id(s, u.id) {
        assert(r =~= s.update(i, merge_channel(s[i], u)));
        lemma_unique_channel_id(s, u.id, i);
        lemma_unique_channel_id(r, u.id, i);
        assert forall|id2: u32| id2 != u.id implies has_channel_id(r, id2) == has_channel_id(
            s,
            id2,
        ) by {
            if has_channel_id(s, id2) {
                let w = channel_index(s, id2);
                assert(r[w].id == id2);
            }
            if has_channel_id(r, id2) {
                let w = channel_index(r, id2);
                assert(s[w].id == id2);
            }
        }
        assert forall|id2: u32| id2 != u.id && has_channel_id(s, id2) implies channel_with_id(
            r,
            id2,
        ) == channel_with_id(s, id2) by {
            let w = channel_index(s, id2);
            assert(r[w].id == id2);
            lemma_unique_channel_id(s, id2, w);
            lemma_unique_channel_id(r, id2, w);
        }
    } else {
        let m = merge_channel(fresh_channel(u.id), u);
        assert(i == s.len() || s[i].id > u.id) by {
            if i < s.len() && s[i].id == u.id {
                assert(has_channel_id(s, u.id));
            }
        }
        assert(r =~= s.insert(i, m));
        assert(channel_ids_sorted(r)) by {
            assert(forall|k: int| 0 <= k < i ==> r[k] == s[k]);
            assert(forall|k: int| i < k < r.len() ==> r[k] == s[k - 1]);
        }
        lemma_unique_channel_id(r, u.id, i);
        assert forall|id2: u32| id2 != u.id implies has_channel_id(r, id2) == has_channel_id(
            s,
            id2,
        ) by {
            if has_channel_id(s, id2) {
                let w = channel_index(s, id2);
                if w < i {
                    assert(r[w].id == id2);
                } else {
                    assert(r[w + 1].id == id2);
                }
            }
            if has_channel_id(r, id2) {
                let w = channel_index(r, id2);
                if w < i {
                    assert(s[w].id == id2);
                } else {
                    assert(s[w - 1].id == id2);
                }
            }
        }
        assert forall|id2: u32| id2 != u.id && has_channel_id(s, id2) implies channel_with_id(
            r,
            id2,
        ) == channel_with_id(s, id2) by {
            let w = channel_index(s, id2);
            lemma_unique_channel_id(s, id2, w);
            if w < i {
                assert(r[w].id == id2);
                lemma_unique_channel_id(r, id2, w);
            } else {
                assert(r[w + 1].id == id2);
                lemma_unique_channel_id(r, id2, w + 1);
            }
        }
    }
}

/// Merge law for user updates, for every update applied to every sorted
/// cache content: the updated record merges field-wise onto the prior
/// record (or onto the fresh baseline when the id is new), so a field left
/// absent in the update never changes the stored value and a field
/// supplied always overwrites it; every record with another id is
/// untouched; and the result is again sorted.
#[verifier::rlimit(100)]
pub proof fn lemma_user_update_merges(s: Seq<UserView>, u: UserUpdateView)
    requires
        user_ids_sorted(s),
    ensures
        user_ids_sorted(spec_apply_user(s, u)),
        has_user_id(spec_apply_user(s, u), u.id),
        user_with_id(spec_apply_user(s, u), u.id) == merge_user(
            if has_user_id(s, u.id) {
                user_with_id(s, u.id)
            } else {
                fresh_user(u.id)
            },
            u,
        ),
        forall|id2: u32|
            id2 != u.id ==> has_user_id(spec_apply_user(s, u), id2) == has_user_id(s, id2),
        forall|id2: u32|
            id2 != u.id && has_user_id(s, id2) ==> user_with_id(spec_apply_user(s, u), id2)
                == user_with_id(s, id2),
{
    let i = lemma_split_point_user(s, u.id);
    lemma_apply_user_split(s, u, i);
    let r = spec_apply_user(s, u);
    if has_user_id(s, u.id) {
        assert(r =~= s.update(i, merge_user(s[i], u)));
        lemma_unique_user_id(s, u.id, i);
        lemma_unique_user_id(r, u.id, i);
        assert forall|id2: u32| id2 != u.id implies has_user_id(r, id2) == has_user_id(s, id2) by {
            if has_user_id(s, id2) {
                let w = user_index(s, id2);
                assert(r[w].id == id2);
            }
            if has_user_id(r, id2) {
                let w = user_index(r, id2);
                assert(s[w].id == id2);
            }
        }
        assert forall|id2: u32| id2 != u.id && has_user_id(s, id2) implies user_with_id(r, id2)
            == user_with_id(s, id2) by {
            let w = user_index(s, id2);
            assert(r[w].id == id2);
            lemma_unique_user_id(s, id2, w);
            lemma_unique_user_id(r, id2, w);
        }
    } else {
        let m = merge_user(fresh_user(u.id), u);
        assert(i == s.len() || s[i].id > u.id) by {
            if i < s.len() && s[i].id == u.id {
                assert(has_user_id(s, u.id));
            }
        }
        assert(r =~= s.insert(i, m));
        assert(user_ids_sorted(r)) by {
            assert(forall|k: int| 0 <= k < i ==> r[k] == s[k]);
            assert(forall|k: int| i < k < r.len() ==> r[k] == s[k - 1]);
        }
        lemma_unique_user_id(r, u.id, i);
        assert forall|id2: u32| id2 != u.id implies has_user_id(r, id2) == has_user_id(s, id2) by {
            if has_user_id(s, id2) {
                let w = user_index(s, id2);
                if w < i {
                    assert(r[w].id == id2);
                } else {
                    assert(r[w + 1].id == id2);
                }
            }
            if has_user_id(r, id2) {
                let w = user_index(r, id2);
                if w < i {
                    assert(s[w].id == id2);
                } else {
                    assert(s[w - 1].id == id2);
                }
            }
        }
        assert forall|id2: u32| id2 != u.id && has_user_id(s, id2) implies user_with_id(r, id2)
            == user_with_id(s, id2) by {
            let w = user_index(s, id2);
            lemma_unique_user_id(s, id2, w);
            if w < i {
                assert(r[w].id == id2);
                lemma_unique_user_id(r, id2, w);
            } else {
                assert(r[w + 1].id == id2);
                lemma_unique_user_id(r, id2, w + 1);
            }
        }
    }
}

/// In-memory mirror of the channels and users the server has reported,
/// merge-updated incrementally and held sorted by identifier.
#[derive(Debug)]
pub struct StateCache {
    channels: Vec<Channel>,
    users: Vec<User>,
}

impl StateCache {
    #[verifier::type_invariant]
    spec fn wf(self) -> bool {
        channel_ids_sorted(self.channels.deep_view()) && user_ids_sorted(self.users.deep_view())
    }

    /// The cached channel records, sorted ascending by id.
    pub closed spec fn channels_view(self) -> Seq<ChannelView> {
        self.channels.deep_view()
    }

    /// The cached user records, sorted ascending by id.
    pub closed spec fn users_view(self) -> Seq<UserView> {
        self.users.deep_view()
    }

    /// An empty cache.
    pub fn new() -> (r: Self)
        ensures
            r.channels_view() == Seq::<ChannelView>::empty(),
            r.users_view() == Seq::<UserView>::empty(),
    {
        let r = StateCache { channels: Vec::new(), users: Vec::new() };
        proof {
            assert(r.channels.deep_view() =~= Seq::<ChannelView>::empty());
            assert(r.users.deep_view() =~= Seq::<UserView>::empty());
        }
        r
    }

    /// Looks up a channel by id; `None` when the id was never reported.
    pub fn channel(&self, id: u32) -> (r: Option<&Channel>)
        ensures
            match r {
                Some(c) => has_channel_id(self.channels_view(), id) && c@ == channel_with_id(
                    self.channels_view(),
                    id,
                ),
                None => !has_channel_id(self.channels_view(), id),
            },
    {
        proof {
            use_type_invariant(&*self);
        }
        let mut i: usize = 0;
        while i < self.channels.len()
            invariant
                i <= self.channels@.len(),
                channel_ids_sorted(self.channels.deep_view()),
                forall|j: int| 0 <= j < i ==> self.channels.deep_view()[j].id != id,
            decreases self.channels@.len() - i,
        {
            if self.channels[i].id == id {
                proof {
                    lemma_unique_channel_id(self.channels_view(), id, i as int);
                }
                return Some(&self.channels[i]);
            }
            i += 1;
        }
        None
    }

    /// Looks up a user by id; `None` when the id is not cached.
    pub fn user(&self, id: u32) -> (r: Option<&User>)
        ensures
            match r {
                Some(u) => has_user_id(self.users_view(), id) && u@ == user_with_id(
                    self.users_view(),
                    id,
                ),
                None => !has_user_id(self.users_view(), id),
            },
    {
        proof {
            use_type_invariant(&*self);
        }
        let mut i: usize = 0;
        while i < self.users.len()
            invariant
                i <= self.users@.len(),
                user_ids_sorted(self.users.deep_view()),
                forall|j: int| 0 <= j < i ==> self.users.deep_view()[j].id != id,
            decreases self.users@.len() - i,
        {
            if self.users[i].id == id {
                proof {
                    lemma_unique_user_id(self.users_view(), id, i as int);
                }
                return Some(&self.users[i]);
            }
            i += 1;
        }
        None
    }

    /// Merges a partial channel update into the cache, creating the record
    /// from an empty baseline when the id is new. Never fails.
    pub fn apply_channel_state(&mut self, update: ChannelStateUpdate)
        ensures
            final(self).channels_view() == spec_apply_channel(
                old(self).channels_view(),
                update@,
            ),
            final(self).users_view() == old(self).users_view(),
    {
        proof {
            use_type_invariant(&*self);
        }
        let ghost uv = update@;
        let mut chans: Vec<Channel> = Vec::new();
        core::mem::swap(&mut chans, &mut self.channels);
        let ghost s0 = chans.deep_view();
        let i = find_channel_pos(&chans, update.id);
        proof {
            lemma_apply_channel_split(s0, uv, i as int);
        }
        if i < chans.len() && chans[i].id == update.id {
            let mut entry = chans.remove(i);
            if let Some(name) = update.name {
                entry.name = name;
            }
            if let Some(parent_id) = update.parent_id {
                entry.parent_id = Some(parent_id);
            }
            chans.insert(i, entry);
            proof {
                assert(chans.deep_view() =~= s0.update(i as int, merge_channel(s0[i as int], uv)));
                assert(chans.deep_view() =~= spec_apply_channel(s0, uv));
            }
        } else {
            let name = match update.name {
                Some(name) => name,
                None => String::new(),
            };
            let entry = Channel { id: update.id, name, parent_id: update.parent_id };
            chans.insert(i, entry);
            proof {
                assert(entry@ == merge_channel(fresh_channel(uv.id), uv));
                assert(chans.deep_view() =~= s0.insert(
                    i as int,
                    merge_channel(fresh_channel(uv.id), uv),
                ));
                assert(chans.deep_view() =~= spec_apply_channel(s0, uv));
            }
        }
        proof {
            assert(channel_ids_sorted(chans.deep_view()));
        }
        core::mem::swap(&mut chans, &mut self.channels);
    }

    /// Merges a partial user update into the cache, creating the record
    /// from the default baseline when the id is new. Never fails.
    pub fn apply_user_state(&mut self, update: UserStateUpdate)
        ensures
            final(self).users_view() == spec_apply_user(old(self).users_view(), update@),
            final(self).channels_view() == old(self).channels_view(),
    {
        proof {
            use_type_invariant(&*self);
        }
        let ghost uv = update@;
        let mut users: Vec<User> = Vec::new();
        core::mem::swap(&mut users, &mut self.users);
        let ghost s0 = users.deep_view();
        let i = find_user_pos(&users, update.id);
        proof {
            lemma_apply_user_split(s0, uv, i as int);
        }
        if i < users.len() && users[i].id == update.id {
            let mut entry = users.remove(i);
            if let Some(name) = update.name {
                entry.name = name;
            }
            if let Some(channel_id) = update.channel_id {
                entry.channel_id = channel_id;
            }
            if let Some(muted) = update.muted {
                entry.muted = muted;
            }
            if let Some(deafened) = update.deafened {
                entry.deafened = deafened;
            }
            if let Some(talking) = update.talking {
                entry.talking = talking;
            }
            users.insert(i, entry);
            proof {
                assert(users.deep_view() =~= s0.update(i as int, merge_user(s0[i as int], uv)));
                assert(users.deep_view() =~= spec_apply_user(s0, uv));
            }
        } else {
            let name = match update.name {
                Some(name) => name,
                None => "Unknown".to_owned(),
            };
            let channel_id = match update.channel_id {
                Some(channel_id) => channel_id,
                None => 0,
            };
            let muted = match update.muted {
                Some(muted) => muted,
                None => false,
            };
            let deafened = match update.deafened {
                Some(deafened) => deafened,
                None => false,
            };
            let talking = match update.talking {
                Some(talking) => talking,
                None => false,
            };
            let entry = User { id: update.id, name, channel_id, muted, deafened, talking };
            users.insert(i, entry);
            proof {
                assert(entry@ == merge_user(fresh_user(uv.id), uv));
                assert(users.deep_view() =~= s0.insert(i as int, merge_user(fresh_user(uv.id), uv)));
                assert(users.deep_view() =~= spec_apply_user(s0, uv));
            }
        }
        proof {
            assert(user_ids_sorted(users.deep_view()));
        }
        core::mem::swap(&mut users, &mut self.users);
    }

    /// Deletes the user record carrying `id`; a no-op when it is absent.
    pub fn apply_user_remove(&mut self, id: u32)
        ensures
            final(self).users_view() == spec_remove_user(old(self).users_view(), id),
            final(self).channels_view() == old(self).channels_view(),
    {
        proof {
            use_type_invariant(&*self);
        }
        let mut users: Vec<User> = Vec::new();
        core::mem::swap(&mut users, &mut self.users);
        let ghost s0 = users.deep_view();
        let i = find_user_pos(&users, id);
        proof {
            lemma_remove_user_split(s0, id, i as int);
        }
        if i < users.len() && users[i].id == id {
            users.remove(i);
            proof {
                assert(users.deep_view() =~= s0.remove(i as int));
            }
        }
        proof {
            assert(user_ids_sorted(users.deep_view()));
        }
        core::mem::swap(&mut users, &mut self.users);
    }

    /// Full snapshot of the cached channels, sorted strictly ascending by
    /// id regardless of the order updates arrived in.
    pub fn channels(&self) -> (r: Vec<Channel>)
        ensures
            r.deep_view() == self.channels_view(),
            channel_ids_sorted(r.deep_view()),
    {
        proof {
            use_type_invariant(&*self);
        }
        let out = self.channels.clone();
        proof {
            assert forall|k: int| 0 <= k < out@.len() implies out@[k]@ == self.channels@[k]@ by {
                assert(cloned::<Channel>(self.channels[k], out[k]));
            }
            assert(out.deep_view() =~= self.channels_view());
        }
        out
    }

    /// Full snapshot of the cached users, sorted strictly ascending by id
    /// regardless of the order updates arrived in.
    pub fn users(&self) -> (r: Vec<User>)
        ensures
            r.deep_view() == self.users_view(),
            user_ids_sorted(r.deep_view()),
    {
        proof {
            use_type_invariant(&*self);
        }
        let out = self.users.clone();
        proof {
            assert forall|k: int| 0 <= k < out@.len() implies out@[k]@ == self.users@[k]@ by {
                assert(cloned::<User>(self.users[k], out[k]));
            }
            assert(out.deep_view() =~= self.users_view());
        }
        out
    }
}

/// In a sequence with strictly ascending ids, the record at a matching
/// index is the record `channel_with_id` selects.
proof fn lemma_unique_channel_id(s: Seq<ChannelView>, id: u32, i: int)
    requires
        channel_ids_sorted(s),
        0 <= i < s.len(),
        s[i].id == id,
    ensures
        has_channel_id(s, id),
        channel_with_id(s, id) == s[i],
{
    assert(has_channel_id(s, id));
    let k = channel_index(s, id);
    if k < i {
        assert(s[k].id < s[i].id);
    } else if k > i {
        assert(s[i].id < s[k].id);
    }
}

/// In a sequence with strictly ascending ids, the record at a matching
/// index is the record `user_with_id` selects.
proof fn lemma_unique_user_id(s: Seq<UserView>, id: u32, i: int)
    requires
        user_ids_sorted(s),
        0 <= i < s.len(),
        s[i].id == id,
    ensures
        has_user_id(s, id),
        user_with_id(s, id) == s[i],
{
    assert(has_user_id(s, id));
    let k = user_index(s, id);
    if k < i {
        assert(s[k].id < s[i].id);
    } else if k > i {
        assert(s[i].id < s[k].id);
    }
}

/// First position whose record id is not below `id`; the insertion point
/// in a sequence sorted ascending by id.
fn find_channel_pos(chans: &Vec<Channel>, id: u32) -> (r: usize)
    ensures
        r <= chans@.len(),
        forall|j: int| 0 <= j < r ==> chans.deep_view()[j].id < id,
        r < chans@.len() ==> chans.deep_view()[r as int].id >= id,
{
    let mut i: usize = 0;
    while i < chans.len() && chans[i].id < id
        invariant
            i <= chans@.len(),
            forall|j: int| 0 <= j < i ==> chans.deep_view()[j].id < id,
        decreases chans@.len() - i,
    {
        i += 1;
    }
    i
}

/// First position whose record id is not below `id`; the insertion point
/// in a sequence sorted ascending by id.
fn find_user_pos(users: &Vec<User>, id: u32) -> (r: usize)
    ensures
        r <= users@.len(),
        forall|j: int| 0 <= j < r ==> users.deep_view()[j].id < id,
        r < users@.len() ==> users.deep_view()[r as int].id >= id,
{
    let mut i: usize = 0;
    while i < users.len() && users[i].id < id
        invariant
            i <= users@.len(),
            forall|j: int| 0 <= j < i ==> users.deep_view()[j].id < id,
        decreases users@.len() - i,
    {
        i += 1;
    }
    i
}

} // verus!
