//! The history store: per-player summaries, name history and match history.
//!
//! Records are keyed by player uuid. Summaries are unique per uuid; name
//! records are unique per (uuid, name, tag) triple; match records are unique
//! per (uuid, match id) pair. All inserts are idempotent: repeating an insert
//! with the same key leaves the store unchanged, which is what lets the poll
//! loop observe the same live match many times without duplicating rows.

use vstd::prelude::*;

verus! {

/// Per-player summary: how often and when this player was seen.
#[derive(Debug, Clone, Default)]
pub struct UserDatabase {
    pub rowid: Option<i64>,
    pub uuid: String,
    pub times_played: i64,
    pub last_played: i64,
}

/// One match a player was seen in.
#[derive(Debug, Clone, Default)]
pub struct MatchHistory {
    pub rowid: Option<i64>,
    pub uuid: String,
    pub match_id: String,
    pub map_id: String,
    pub gamemode_id: Option<String>,
    pub enemy: Option<bool>,
    pub agent_id: String,
    pub match_time: i64,
}

/// One (name, tag) pair a player was seen under.
#[derive(Debug, Clone, Default)]
pub struct NameHistory {
    pub rowid: Option<i64>,
    pub uuid: String,
    pub name: String,
    pub tag: String,
    pub name_time: Option<i64>,
}

/// Mathematical model of a summary record. The storage rowid is not part of
/// the model: it carries no meaning for the store's contracts.
#[verifier::ext_equal]
pub ghost struct UserRec {
    pub uuid: Seq<char>,
    pub times_played: int,
    pub last_played: int,
}

/// Mathematical model of a match-history record.
#[verifier::ext_equal]
pub ghost struct MatchRec {
    pub uuid: Seq<char>,
    pub match_id: Seq<char>,
    pub map_id: Seq<char>,
    pub gamemode_id: Option<Seq<char>>,
    pub enemy: Option<bool>,
    pub agent_id: Seq<char>,
    pub match_time: int,
}

/// Mathematical model of a name-history record.
#[verifier::ext_equal]
pub ghost struct NameRec {
    pub uuid: Seq<char>,
    pub name: Seq<char>,
    pub tag: Seq<char>,
    pub name_time: Option<int>,
}

impl View for UserDatabase {
    type V = UserRec;

    open spec fn view(&self) -> UserRec {
        UserRec {
            uuid: self.uuid@,
            times_played: self.times_played as int,
            last_played: self.last_played as int,
        }
    }
}

impl View for MatchHistory {
    type V = MatchRec;

    open spec fn view(&self) -> MatchRec {
        MatchRec {
            uuid: self.uuid@,
            match_id: self.match_id@,
            map_id: self.map_id@,
            gamemode_id: match self.gamemode_id {
                Some(ref s) => Some(s@),
                None => None,
            },
            enemy: self.enemy,
            agent_id: self.agent_id@,
            match_time: self.match_time as int,
        }
    }
}

impl View for NameHistory {
    type V = NameRec;

    open spec fn view(&self) -> NameRec {
        NameRec {
            uuid: self.uuid@,
            name: self.name@,
            tag: self.tag@,
            name_time: match self.name_time {
                Some(t) => Some(t as int),
                None => None,
            },
        }
    }
}

/// The store that owns all persistent records.
pub struct HistoryStore {
    users: Vec<UserDatabase>,
    names: Vec<NameHistory>,
    matches: Vec<MatchHistory>,
}

/// Model of a whole store: three sequences of record models, in insertion
/// order.
#[verifier::ext_equal]
pub ghost struct StoreView {
    pub users: Seq<UserRec>,
    pub names: Seq<NameRec>,
    pub matches: Seq<MatchRec>,
}

/// The predicate selecting the name records that belong to `uuid`.
pub open spec fn name_belongs_to(uuid: Seq<char>) -> spec_fn(NameRec) -> bool {
    |r: NameRec| r.uuid == uuid
}

/// The predicate selecting the match records that belong to `uuid`.
pub open spec fn match_belongs_to(uuid: Seq<char>) -> spec_fn(MatchRec) -> bool {
    |r: MatchRec| r.uuid == uuid
}

/// Whether a name record carries the given (uuid, name, tag) key.
pub open spec fn name_key_eq(r: NameRec, uuid: Seq<char>, name: Seq<char>, tag: Seq<char>) -> bool {
    r.uuid == uuid && r.name == name && r.tag == tag
}

/// Whether a match record carries the given (uuid, match id) key.
pub open spec fn match_key_eq(r: MatchRec, uuid: Seq<char>, match_id: Seq<char>) -> bool {
    r.uuid == uuid && r.match_id == match_id
}

impl StoreView {
    /// A store with no records at all.
    pub open spec fn empty() -> StoreView {
        StoreView { users: Seq::empty(), names: Seq::empty(), matches: Seq::empty() }
    }

    pub open spec fn has_user(self, uuid: Seq<char>) -> bool {
        exists|i: int| 0 <= i < self.users.len() && (#[trigger] self.users[i]).uuid == uuid
    }

    pub open spec fn user_index(self, uuid: Seq<char>) -> int {
        choose|i: int| 0 <= i < self.users.len() && (#[trigger] self.users[i]).uuid == uuid
    }

    /// The summary recorded for `uuid`; meaningful only when `has_user`.
    pub open spec fn user(self, uuid: Seq<char>) -> UserRec {
        self.users[self.user_index(uuid)]
    }

    pub open spec fn has_name(self, uuid: Seq<char>, name: Seq<char>, tag: Seq<char>) -> bool {
        exists|i: int|
            0 <= i < self.names.len() && name_key_eq(#[trigger] self.names[i], uuid, name, tag)
    }

    pub open spec fn has_match(self, uuid: Seq<char>, match_id: Seq<char>) -> bool {
        exists|i: int|
            0 <= i < self.matches.len() && match_key_eq(#[trigger] self.matches[i], uuid, match_id)
    }

    /// All name records for `uuid`, oldest first.
    pub open spec fn names_of(self, uuid: Seq<char>) -> Seq<NameRec> {
        self.names.filter(name_belongs_to(uuid))
    }

    /// All match records for `uuid`, oldest first.
    pub open spec fn matches_of(self, uuid: Seq<char>) -> Seq<MatchRec> {
        self.matches.filter(match_belongs_to(uuid))
    }

    /// The store's invariant: each key occurs at most once.
    pub open spec fn wf(self) -> bool {
        &&& forall|i: int, j: int|
            0 <= i < j < self.users.len() ==> (#[trigger] self.users[i]).uuid != (
            #[trigger] self.users[j]).uuid
        &&& forall|i: int, j: int|
            0 <= i < j < self.names.len() ==> !name_key_eq(
                #[trigger] self.names[i],
                (#[trigger] self.names[j]).uuid,
                self.names[j].name,
                self.names[j].tag,
            )
        &&& forall|i: int, j: int|
            0 <= i < j < self.matches.len() ==> !match_key_eq(
                #[trigger] self.matches[i],
                (#[trigger] self.matches[j]).uuid,
                self.matches[j].match_id,
            )
    }
}

impl HistoryStore {
    /// Create an empty store.
    pub fn new() -> (s: HistoryStore)
        ensures
            s@ == StoreView::empty(),
            s.wf(),
    {
        let s = HistoryStore { users: Vec::new(), names: Vec::new(), matches: Vec::new() };
        proof {
            assert(s@.users =~= Seq::<UserRec>::empty());
            assert(s@.names =~= Seq::<NameRec>::empty());
            assert(s@.matches =~= Seq::<MatchRec>::empty());
            assert(s@ =~= StoreView::empty());
        }
        s
    }

    pub open spec fn wf(&self) -> bool {
        self@.wf()
    }
}

impl View for HistoryStore {
    type V = StoreView;

    closed spec fn view(&self) -> StoreView {
        StoreView {
            users: self.users@.map_values(|r: UserDatabase| r@),
            names: self.names@.map_values(|r: NameHistory| r@),
            matches: self.matches@.map_values(|r: MatchHistory| r@),
        }
    }
}

/// A summary after one more sighting at time `now`: the counter goes up by
/// one (saturating at the machine limit) and the last-seen time is refreshed.
pub open spec fn touched_user(u: UserRec, now: int) -> UserRec {
    UserRec {
        uuid: u.uuid,
        times_played: if u.times_played < i64::MAX { u.times_played + 1 } else { u.times_played },
        last_played: now,
    }
}

/// The store after a summary touch for `uuid` at time `now`: an existing
/// summary is bumped in place, an absent one is created with count 1.
pub open spec fn spec_touch(s: StoreView, uuid: Seq<char>, now: int) -> StoreView {
    if s.has_user(uuid) {
        StoreView {
            users: s.users.update(s.user_index(uuid), touched_user(s.user(uuid), now)),
            names: s.names,
            matches: s.matches,
        }
    } else {
        StoreView {
            users: s.users.push(UserRec { uuid: uuid, times_played: 1, last_played: now }),
            names: s.names,
            matches: s.matches,
        }
    }
}

/// In a well-formed store any index holding `uuid` is the one `user_index`
/// denotes, so summary lookups are unambiguous.
pub proof fn lemma_user_index_is(s: StoreView, uuid: Seq<char>, i: int)
    requires
        s.wf(),
        0 <= i < s.users.len(),
        s.users[i].uuid == uuid,
    ensures
        s.has_user(uuid),
        s.user_index(uuid) == i,
        s.user(uuid) == s.users[i],
{
    assert(s.has_user(uuid));
    let j = s.user_index(uuid);
    if i < j {
        assert(s.users[i].uuid != s.users[j].uuid);
    } else if j < i {
        assert(s.users[j].uuid != s.users[i].uuid);
    }
}

/// Index of the summary for `uuid`, if one exists.
fn find_user(store: &HistoryStore, uuid: &String) -> (r: Option<usize>)
    ensures
        match r {
            Some(i) => i < store@.users.len() && store@.users[i as int].uuid == uuid@,
            None => !store@.has_user(uuid@),
        },
{
    let n = store.users.len();
    let mut i: usize = 0;
    while i < n
        invariant
            n == store@.users.len(),
            i <= n,
            forall|k: int| 0 <= k < i ==> (#[trigger] store@.users[k]).uuid != uuid@,
        decreases n - i,
    {
        if store.users[i].uuid == *uuid {
            return Some(i);
        }
        i += 1;
    }
    None
}

/// Look up the summary recorded for `uuid`, returning an owned copy.
/// Succeeds exactly when the player has been seen before.
pub fn get_user(store: &HistoryStore, uuid: String) -> (r: Result<UserDatabase, ()>)
    requires
        store.wf(),
    ensures
        r is Ok <==> store@.has_user(uuid@),
        r is Ok ==> r->Ok_0@ == store@.user(uuid@),
{
    match find_user(store, &uuid) {
        Some(i) => {
            let u = &store.users[i];
            proof {
                lemma_user_index_is(store@, uuid@, i as int);
            }
            Ok(
                UserDatabase {
                    rowid: u.rowid,
                    uuid: u.uuid.clone(),
                    times_played: u.times_played,
                    last_played: u.last_played,
                },
            )
        },
        None => Err(()),
    }
}

/// Record one more sighting of `uuid` at time `now` and return the
/// post-update summary: an absent summary is created with times_played 1,
/// a present one has its counter bumped and its last-seen time refreshed.
pub fn touch_summary(store: &mut HistoryStore, uuid: &String, now: i64) -> (s: UserDatabase)
    requires
        old(store).wf(),
    ensures
        final(store)@ == spec_touch(old(store)@, uuid@, now as int),
        final(store).wf(),
        final(store)@.has_user(uuid@),
        s@ == final(store)@.user(uuid@),
{
    let ghost pre = store@;
    match find_user(store, uuid) {
        Some(i) => {
            proof {
                lemma_user_index_is(pre, uuid@, i as int);
            }
            let cur = store.users[i].times_played;
            let new_times = if cur < i64::MAX {
                cur + 1
            } else {
                cur
            };
            store.users[i].times_played = new_times;
            store.users[i].last_played = now;
            proof {
                assert(store@.users =~= pre.users.update(i as int, touched_user(pre.user(uuid@), now as int)));
                assert(store@.names =~= pre.names);
                assert(store@.matches =~= pre.matches);
                assert(store@ =~= spec_touch(pre, uuid@, now as int));
                lemma_user_index_is(store@, uuid@, i as int);
            }
            let u = &store.users[i];
            UserDatabase {
                rowid: u.rowid,
                uuid: u.uuid.clone(),
                times_played: u.times_played,
                last_played: u.last_played,
            }
        },
        None => {
            let fresh = UserDatabase {
                rowid: None,
                uuid: uuid.clone(),
                times_played: 1,
                last_played: now,
            };
            let copy = UserDatabase {
                rowid: None,
                uuid: uuid.clone(),
                times_played: 1,
                last_played: now,
            };
            store.users.push(fresh);
            proof {
                assert(store@.users =~= pre.users.push(
                    UserRec { uuid: uuid@, times_played: 1, last_played: now as int },
                ));
                assert(store@.names =~= pre.names);
                assert(store@.matches =~= pre.matches);
                assert(store@ =~= spec_touch(pre, uuid@, now as int));
                lemma_user_index_is(store@, uuid@, pre.users.len() as int);
            }
            copy
        },
    }
}

/// Record one more sighting of `uuid` at time `now`. Mirrors
/// `touch_summary` but keeps only success or failure; in-memory touches
/// always succeed.
pub fn update_user(store: &mut HistoryStore, uuid: String, now: i64) -> (r: Result<(), ()>)
    requires
        old(store).wf(),
    ensures
        r is Ok,
        final(store)@ == spec_touch(old(store)@, uuid@, now as int),
        final(store).wf(),
{
    let _ = touch_summary(store, &uuid, now);
    Ok(())
}

/// Insert a complete summary row for a player not seen before. Fails, and
/// leaves the store unchanged, when a summary for `uuid` already exists.
pub fn add_user_full(store: &mut HistoryStore, uuid: String, times_played: i64, last_played: i64) -> (r:
    Result<(), ()>)
    requires
        old(store).wf(),
    ensures
        r is Ok <==> !old(store)@.has_user(uuid@),
        r is Ok ==> final(store)@ == (StoreView {
            users: old(store)@.users.push(
                UserRec {
                    uuid: uuid@,
                    times_played: times_played as int,
                    last_played: last_played as int,
                },
            ),
            names: old(store)@.names,
            matches: old(store)@.matches,
        }),
        r is Err ==> final(store)@ == old(store)@,
        final(store).wf(),
{
    let ghost pre = store@;
    let ghost uid = uuid@;
    match find_user(store, &uuid) {
        Some(_) => Err(()),
        None => {
            store.users.push(
                UserDatabase { rowid: None, uuid: uuid, times_played: times_played, last_played: last_played },
            );
            proof {
                assert(store@.users =~= pre.users.push(
                    UserRec {
                        uuid: uid,
                        times_played: times_played as int,
                        last_played: last_played as int,
                    },
                ));
                assert(store@.names =~= pre.names);
                assert(store@.matches =~= pre.matches);
            }
            Ok(())
        },
    }
}

/// The store after recording that `uuid` was seen under (name, tag) at time
/// `now`: a no-op when the triple is already present, an append otherwise.
pub open spec fn spec_record_name(
    s: StoreView,
    uuid: Seq<char>,
    name: Seq<char>,
    tag: Seq<char>,
    now: int,
) -> StoreView {
    if s.has_name(uuid, name, tag) {
        s
    } else {
        StoreView {
            users: s.users,
            names: s.names.push(NameRec { uuid: uuid, name: name, tag: tag, name_time: Some(now) }),
            matches: s.matches,
        }
    }
}

/// The store after recording that `uuid` took part in `match_id`: a no-op
/// when the (uuid, match id) pair is already present, an append otherwise.
pub open spec fn spec_record_match(
    s: StoreView,
    uuid: Seq<char>,
    match_id: Seq<char>,
    map_id: Seq<char>,
    gamemode_id: Seq<char>,
    agent_id: Seq<char>,
    enemy: bool,
    time_played: int,
) -> StoreView {
    if s.has_match(uuid, match_id) {
        s
    } else {
        StoreView {
            users: s.users,
            names: s.names,
            matches: s.matches.push(
                MatchRec {
                    uuid: uuid,
                    match_id: match_id,
                    map_id: map_id,
                    gamemode_id: Some(gamemode_id),
                    enemy: Some(enemy),
                    agent_id: agent_id,
                    match_time: time_played,
                },
            ),
        }
    }
}

/// Whether a (uuid, name, tag) triple is already on record.
fn name_exists(store: &HistoryStore, uuid: &String, name: &String, tag: &String) -> (b: bool)
    ensures
        b == store@.has_name(uuid@, name@, tag@),
{
    let n = store.names.len();
    let mut i: usize = 0;
    while i < n
        invariant
            n == store@.names.len(),
            i <= n,
            forall|k: int|
                0 <= k < i ==> !name_key_eq(#[trigger] store@.names[k], uuid@, name@, tag@),
        decreases n - i,
    {
        let r = &store.names[i];
        if r.uuid == *uuid && r.name == *name && r.tag == *tag {
            proof {
                assert(name_key_eq(store@.names[i as int], uuid@, name@, tag@));
            }
            return true;
        }
        i += 1;
    }
    false
}

/// Record a (name, tag) sighting for `uuid` at time `now`. Succeeds exactly
/// when the triple was not yet on record; a duplicate leaves the store
/// unchanged and fails, so repeated polls of one roster add nothing.
pub fn add_new_name(store: &mut HistoryStore, uuid: String, name: String, tag: String, now: i64) -> (r:
    Result<(), ()>)
    requires
        old(store).wf(),
    ensures
        r is Ok <==> !old(store)@.has_name(uuid@, name@, tag@),
        final(store)@ == spec_record_name(old(store)@, uuid@, name@, tag@, now as int),
        final(store).wf(),
{
    let ghost pre = store@;
    let ghost uid = uuid@;
    let ghost nm = name@;
    let ghost tg = tag@;
    if name_exists(store, &uuid, &name, &tag) {
        Err(())
    } else {
        store.names.push(
            NameHistory { rowid: None, uuid: uuid, name: name, tag: tag, name_time: Some(now) },
        );
        proof {
            assert(store@.names =~= pre.names.push(
                NameRec { uuid: uid, name: nm, tag: tg, name_time: Some(now as int) },
            ));
            assert(store@.users =~= pre.users);
            assert(store@.matches =~= pre.matches);
            assert(store@ =~= spec_record_name(pre, uid, nm, tg, now as int));
        }
        Ok(())
    }
}

/// Whether a (uuid, match id) pair is already on record.
fn match_exists(store: &HistoryStore, uuid: &String, match_id: &String) -> (b: bool)
    ensures
        b == store@.has_match(uuid@, match_id@),
{
    let n = store.matches.len();
    let mut i: usize = 0;
    while i < n
        invariant
            n == store@.matches.len(),
            i <= n,
            forall|k: int| 0 <= k < i ==> !match_key_eq(#[trigger] store@.matches[k], uuid@, match_id@),
        decreases n - i,
    {
        let r = &store.matches[i];
        if r.uuid == *uuid && r.match_id == *match_id {
            proof {
                assert(match_key_eq(store@.matches[i as int], uuid@, match_id@));
            }
            return true;
        }
        i += 1;
    }
    false
}

/// Record that `uuid` took part in `match_id`. Succeeds exactly when no
/// record for the (uuid, match id) pair exists yet; a duplicate leaves the
/// store unchanged and fails, which keeps match history free of repeats
/// while a live match is polled again and again.
pub fn add_new_match(
    store: &mut HistoryStore,
    uuid: String,
    match_id: String,
    map_id: String,
    gamemode_id: String,
    agent_id: String,
    enemy: bool,
    time_played: i64,
) -> (r: Result<(), ()>)
    requires
        old(store).wf(),
    ensures
        r is Ok <==> !old(store)@.has_match(uuid@, match_id@),
        final(store)@ == spec_record_match(
            old(store)@,
            uuid@,
            match_id@,
            map_id@,
            gamemode_id@,
            agent_id@,
            enemy,
            time_played as int,
        ),
        final(store).wf(),
{
    let ghost pre = store@;
    let ghost uid = uuid@;
    let ghost mid = match_id@;
    if match_exists(store, &uuid, &match_id) {
        Err(())
    } else {
        let ghost map_v = map_id@;
        let ghost mode_v = gamemode_id@;
        let ghost agent_v = agent_id@;
        store.matches.push(
            MatchHistory {
                rowid: None,
                uuid: uuid,
                match_id: match_id,
                map_id: map_id,
                gamemode_id: Some(gamemode_id),
                enemy: Some(enemy),
                agent_id: agent_id,
                match_time: time_played,
            },
        );
        proof {
            assert(store@.matches =~= pre.matches.push(
                MatchRec {
                    uuid: uid,
                    match_id: mid,
                    map_id: map_v,
                    gamemode_id: Some(mode_v),
                    enemy: Some(enemy),
                    agent_id: agent_v,
                    match_time: time_played as int,
                },
            ));
            assert(store@.users =~= pre.users);
            assert(store@.names =~= pre.names);
            assert(store@ =~= spec_record_match(
                pre,
                uid,
                mid,
                map_v,
                mode_v,
                agent_v,
                enemy,
                time_played as int,
            ));
        }
        Ok(())
    }
}

/// Owned copy of a name record, equal to the original in the model.
pub fn copy_name(n: &NameHistory) -> (r: NameHistory)
    ensures
        r@ == n@,
{
    NameHistory {
        rowid: n.rowid,
        uuid: n.uuid.clone(),
        name: n.name.clone(),
        tag: n.tag.clone(),
        name_time: n.name_time,
    }
}

/// Owned copy of a match record, equal to the original in the model.
pub fn copy_match(m: &MatchHistory) -> (r: MatchHistory)
    ensures
        r@ == m@,
{
    MatchHistory {
        rowid: m.rowid,
        uuid: m.uuid.clone(),
        match_id: m.match_id.clone(),
        map_id: m.map_id.clone(),
        gamemode_id: match m.gamemode_id {
            Some(ref s) => Some(s.clone()),
            None => None,
        },
        enemy: m.enemy,
        agent_id: m.agent_id.clone(),
        match_time: m.match_time,
    }
}

/// Owned copies of all name records for `uuid`, oldest first.
pub fn collect_names(store: &HistoryStore, uuid: &String) -> (v: Vec<NameHistory>)
    ensures
        v@.map_values(|n: NameHistory| n@) == store@.names_of(uuid@),
{
    broadcast use vstd::seq_lib::group_filter_ensures;

    let n = store.names.len();
    let mut v: Vec<NameHistory> = Vec::new();
    let mut i: usize = 0;
    while i < n
        invariant
            n == store@.names.len(),
            i <= n,
            v@.map_values(|r: NameHistory| r@) =~= store@.names.take(i as int).filter(
                name_belongs_to(uuid@),
            ),
        decreases n - i,
    {
        let ghost prefix = store@.names.take(i as int);
        let r = &store.names[i];
        if r.uuid == *uuid {
            v.push(copy_name(r));
        }
        proof {
            assert(store@.names.take(i + 1 as int) =~= prefix.push(store@.names[i as int]));
            prefix.lemma_filter_push(store@.names[i as int], name_belongs_to(uuid@));
            assert(v@.map_values(|q: NameHistory| q@) =~= store@.names.take(i + 1 as int).filter(
                name_belongs_to(uuid@),
            ));
        }
        i += 1;
    }
    proof {
        assert(store@.names.take(n as int) =~= store@.names);
    }
    v
}

/// Owned copies of all match records for `uuid`, oldest first.
pub fn collect_matches(store: &HistoryStore, uuid: &String) -> (v: Vec<MatchHistory>)
    ensures
        v@.map_values(|m: MatchHistory| m@) == store@.matches_of(uuid@),
{
    broadcast use vstd::seq_lib::group_filter_ensures;

    let n = store.matches.len();
    let mut v: Vec<MatchHistory> = Vec::new();
    let mut i: usize = 0;
    while i < n
        invariant
            n == store@.matches.len(),
            i <= n,
            v@.map_values(|r: MatchHistory| r@) =~= store@.matches.take(i as int).filter(
                match_belongs_to(uuid@),
            ),
        decreases n - i,
    {
        let ghost prefix = store@.matches.take(i as int);
        let r = &store.matches[i];
        if r.uuid == *uuid {
            v.push(copy_match(r));
        }
        proof {
            assert(store@.matches.take(i + 1 as int) =~= prefix.push(store@.matches[i as int]));
            prefix.lemma_filter_push(store@.matches[i as int], match_belongs_to(uuid@));
            assert(v@.map_values(|q: MatchHistory| q@) =~= store@.matches.take(i + 1 as int).filter(
                match_belongs_to(uuid@),
            ));
        }
        i += 1;
    }
    proof {
        assert(store@.matches.take(n as int) =~= store@.matches);
    }
    v
}

/// Owned copies of every summary row, in insertion order: what a
/// persistence backend must write to survive a restart.
pub fn all_users(store: &HistoryStore) -> (v: Vec<UserDatabase>)
    ensures
        v@.map_values(|u: UserDatabase| u@) == store@.users,
{
    let n = store.users.len();
    let mut v: Vec<UserDatabase> = Vec::new();
    let mut i: usize = 0;
    while i < n
        invariant
            n == store@.users.len(),
            i <= n,
            v@.len() == i,
            forall|k: int| 0 <= k < i ==> (#[trigger] v@[k])@ == store@.users[k],
        decreases n - i,
    {
        let u = &store.users[i];
        v.push(
            UserDatabase {
                rowid: u.rowid,
                uuid: u.uuid.clone(),
                times_played: u.times_played,
                last_played: u.last_played,
            },
        );
        i += 1;
    }
    proof {
        assert(v@.map_values(|u: UserDatabase| u@) =~= store@.users);
    }
    v
}

/// Owned copies of every name row, in insertion order.
pub fn all_names(store: &HistoryStore) -> (v: Vec<NameHistory>)
    ensures
        v@.map_values(|r: NameHistory| r@) == store@.names,
{
    let n = store.names.len();
    let mut v: Vec<NameHistory> = Vec::new();
    let mut i: usize = 0;
    while i < n
        invariant
            n == store@.names.len(),
            i <= n,
            v@.len() == i,
            forall|k: int| 0 <= k < i ==> (#[trigger] v@[k])@ == store@.names[k],
        decreases n - i,
    {
        v.push(copy_name(&store.names[i]));
        i += 1;
    }
    proof {
        assert(v@.map_values(|r: NameHistory| r@) =~= store@.names);
    }
    v
}

/// Owned copies of every match row, in insertion order.
pub fn all_matches(store: &HistoryStore) -> (v: Vec<MatchHistory>)
    ensures
        v@.map_values(|r: MatchHistory| r@) == store@.matches,
{
    let n = store.matches.len();
    let mut v: Vec<MatchHistory> = Vec::new();
    let mut i: usize = 0;
    while i < n
        invariant
            n == store@.matches.len(),
            i <= n,
            v@.len() == i,
            forall|k: int| 0 <= k < i ==> (#[trigger] v@[k])@ == store@.matches[k],
        decreases n - i,
    {
        v.push(copy_match(&store.matches[i]));
        i += 1;
    }
    proof {
        assert(v@.map_values(|r: MatchHistory| r@) =~= store@.matches);
    }
    v
}

/// Recording a match keeps the store well-formed and puts the pair on
/// record.
pub proof fn lemma_record_match_wf(
    s: StoreView,
    uuid: Seq<char>,
    match_id: Seq<char>,
    map_id: Seq<char>,
    gamemode_id: Seq<char>,
    agent_id: Seq<char>,
    enemy: bool,
    time_played: int,
)
    requires
        s.wf(),
    ensures
        spec_record_match(s, uuid, match_id, map_id, gamemode_id, agent_id, enemy, time_played).wf(),
        spec_record_match(
            s,
            uuid,
            match_id,
            map_id,
            gamemode_id,
            agent_id,
            enemy,
            time_played,
        ).has_match(uuid, match_id),
{
    let out = spec_record_match(s, uuid, match_id, map_id, gamemode_id, agent_id, enemy, time_played);
    if !s.has_match(uuid, match_id) {
        let k = s.matches.len() as int;
        assert(match_key_eq(out.matches[k], uuid, match_id));
        assert forall|i: int, j: int| 0 <= i < j < out.matches.len() implies !match_key_eq(
            #[trigger] out.matches[i],
            (#[trigger] out.matches[j]).uuid,
            out.matches[j].match_id,
        ) by {
            if j == k {
                assert(!match_key_eq(s.matches[i], uuid, match_id));
            }
        }
    }
}

/// Idempotent match recording: once a (player, match) pair is on record, a
/// second recording with identical arguments is a no-op, and the store
/// holds exactly one record for the pair.
pub proof fn lemma_record_match_idempotent(
    s: StoreView,
    uuid: Seq<char>,
    match_id: Seq<char>,
    map_id: Seq<char>,
    gamemode_id: Seq<char>,
    agent_id: Seq<char>,
    enemy: bool,
    t1: int,
    t2: int,
)
    requires
        s.wf(),
    ensures
        ({
            let once = spec_record_match(s, uuid, match_id, map_id, gamemode_id, agent_id, enemy, t1);
            let twice = spec_record_match(
                once,
                uuid,
                match_id,
                map_id,
                gamemode_id,
                agent_id,
                enemy,
                t2,
            );
            &&& twice == once
            &&& once.has_match(uuid, match_id)
            &&& forall|i: int, j: int|
                0 <= i < once.matches.len() && 0 <= j < once.matches.len() && match_key_eq(
                    #[trigger] once.matches[i],
                    uuid,
                    match_id,
                ) && match_key_eq(#[trigger] once.matches[j], uuid, match_id) ==> i == j
        }),
{
    lemma_record_match_wf(s, uuid, match_id, map_id, gamemode_id, agent_id, enemy, t1);
    let once = spec_record_match(s, uuid, match_id, map_id, gamemode_id, agent_id, enemy, t1);
    assert forall|i: int, j: int|
        0 <= i < once.matches.len() && 0 <= j < once.matches.len() && match_key_eq(
            #[trigger] once.matches[i],
            uuid,
            match_id,
        ) && match_key_eq(#[trigger] once.matches[j], uuid, match_id) implies i == j by {
        if i < j {
            assert(!match_key_eq(once.matches[i], once.matches[j].uuid, once.matches[j].match_id));
        } else if j < i {
            assert(!match_key_eq(once.matches[j], once.matches[i].uuid, once.matches[i].match_id));
        }
    }
}

/// Recording a name keeps the store well-formed and puts the triple on
/// record.
pub proof fn lemma_record_name_wf(
    s: StoreView,
    uuid: Seq<char>,
    name: Seq<char>,
    tag: Seq<char>,
    now: int,
)
    requires
        s.wf(),
    ensures
        spec_record_name(s, uuid, name, tag, now).wf(),
        spec_record_name(s, uuid, name, tag, now).has_name(uuid, name, tag),
{
    let out = spec_record_name(s, uuid, name, tag, now);
    if !s.has_name(uuid, name, tag) {
        let k = s.names.len() as int;
        assert(name_key_eq(out.names[k], uuid, name, tag));
        assert forall|i: int, j: int| 0 <= i < j < out.names.len() implies !name_key_eq(
            #[trigger] out.names[i],
            (#[trigger] out.names[j]).uuid,
            out.names[j].name,
            out.names[j].tag,
        ) by {
            if j == k {
                assert(!name_key_eq(s.names[i], uuid, name, tag));
            }
        }
    }
}

/// Idempotent name recording: recording the same (name, tag) pair for a
/// player twice yields a single name record, the second recording being a
/// no-op.
pub proof fn lemma_record_name_idempotent(
    s: StoreView,
    uuid: Seq<char>,
    name: Seq<char>,
    tag: Seq<char>,
    t1: int,
    t2: int,
)
    requires
        s.wf(),
    ensures
        ({
            let once = spec_record_name(s, uuid, name, tag, t1);
            let twice = spec_record_name(once, uuid, name, tag, t2);
            &&& twice == once
            &&& once.has_name(uuid, name, tag)
            &&& forall|i: int, j: int|
                0 <= i < once.names.len() && 0 <= j < once.names.len() && name_key_eq(
                    #[trigger] once.names[i],
                    uuid,
                    name,
                    tag,
                ) && name_key_eq(#[trigger] once.names[j], uuid, name, tag) ==> i == j
        }),
{
    lemma_record_name_wf(s, uuid, name, tag, t1);
    let once = spec_record_name(s, uuid, name, tag, t1);
    assert forall|i: int, j: int|
        0 <= i < once.names.len() && 0 <= j < once.names.len() && name_key_eq(
            #[trigger] once.names[i],
            uuid,
            name,
            tag,
        ) && name_key_eq(#[trigger] once.names[j], uuid, name, tag) implies i == j by {
        if i < j {
            assert(!name_key_eq(once.names[i], once.names[j].uuid, once.names[j].name, once.names[j].tag));
        } else if j < i {
            assert(!name_key_eq(once.names[j], once.names[i].uuid, once.names[i].name, once.names[i].tag));
        }
    }
}

/// A summary touch keeps the store well-formed, and the summary afterwards
/// is exactly the touched (or freshly created) record.
pub proof fn lemma_touch_wf(s: StoreView, uuid: Seq<char>, now: int)
    requires
        s.wf(),
    ensures
        spec_touch(s, uuid, now).wf(),
        spec_touch(s, uuid, now).has_user(uuid),
        spec_touch(s, uuid, now).user(uuid) == if s.has_user(uuid) {
            touched_user(s.user(uuid), now)
        } else {
            UserRec { uuid: uuid, times_played: 1, last_played: now }
        },
        spec_touch(s, uuid, now).names == s.names,
        spec_touch(s, uuid, now).matches == s.matches,
{
    let out = spec_touch(s, uuid, now);
    if s.has_user(uuid) {
        let k = s.user_index(uuid);
        assert(out.users[k].uuid == uuid);
        assert(out.users =~= s.users.update(k, touched_user(s.user(uuid), now)));
        assert forall|i: int, j: int| 0 <= i < j < out.users.len() implies (
        #[trigger] out.users[i]).uuid != (#[trigger] out.users[j]).uuid by {
            assert(out.users[i].uuid == s.users[i].uuid);
            assert(out.users[j].uuid == s.users[j].uuid);
        }
        lemma_user_index_is(out, uuid, k);
    } else {
        let k = s.users.len() as int;
        assert(out.users[k].uuid == uuid);
        assert forall|i: int, j: int| 0 <= i < j < out.users.len() implies (
        #[trigger] out.users[i]).uuid != (#[trigger] out.users[j]).uuid by {
            if j == k {
                assert(s.users[i].uuid != uuid);
            }
        }
        lemma_user_index_is(out, uuid, k);
    }
}

/// The store after `times.len()` successive summary touches of `uuid`, the
/// k-th touch stamped with `times[k]`.
pub open spec fn spec_touch_n(s: StoreView, uuid: Seq<char>, times: Seq<int>) -> StoreView
    decreases times.len(),
{
    if times.len() == 0 {
        s
    } else {
        spec_touch(spec_touch_n(s, uuid, times.drop_last()), uuid, times.last())
    }
}

/// Summary monotonicity: touching the summary of a player not seen before
/// n times yields times_played == n, with last_played the stamp of the
/// last touch.
pub proof fn lemma_touch_monotone(s: StoreView, uuid: Seq<char>, times: Seq<int>)
    requires
        s.wf(),
        !s.has_user(uuid),
        1 <= times.len() <= i64::MAX,
    ensures
        spec_touch_n(s, uuid, times).wf(),
        spec_touch_n(s, uuid, times).has_user(uuid),
        spec_touch_n(s, uuid, times).user(uuid).times_played == times.len(),
        spec_touch_n(s, uuid, times).user(uuid).last_played == times.last(),
    decreases times.len(),
{
    if times.len() == 1 {
        assert(spec_touch_n(s, uuid, times.drop_last()) == s);
        assert(spec_touch_n(s, uuid, times) == spec_touch(s, uuid, times.last()));
        lemma_touch_wf(s, uuid, times.last());
    } else {
        lemma_touch_monotone(s, uuid, times.drop_last());
        let mid = spec_touch_n(s, uuid, times.drop_last());
        assert(spec_touch_n(s, uuid, times) == spec_touch(mid, uuid, times.last()));
        lemma_touch_wf(mid, uuid, times.last());
        assert(mid.user(uuid).times_played == times.len() - 1);
        assert(mid.user(uuid).times_played < i64::MAX);
    }
}

/// The name history recorded for `uuid`, oldest first. Succeeds exactly when
/// at least one name is on record.
pub fn get_user_name_history(store: &HistoryStore, uuid: String) -> (r: Result<Vec<NameHistory>, ()>)
    ensures
        r is Ok <==> store@.names_of(uuid@).len() > 0,
        r is Ok ==> r->Ok_0@.map_values(|n: NameHistory| n@) == store@.names_of(uuid@),
{
    let v = collect_names(store, &uuid);
    if v.len() > 0 {
        Ok(v)
    } else {
        proof {
            assert(store@.names_of(uuid@).len() == 0);
        }
        Err(())
    }
}

/// The match history recorded for `uuid`, oldest first. Succeeds exactly
/// when at least one match is on record.
pub fn get_user_match_history(store: &HistoryStore, uuid: String) -> (r: Result<
    Vec<MatchHistory>,
    (),
>)
    ensures
        r is Ok <==> store@.matches_of(uuid@).len() > 0,
        r is Ok ==> r->Ok_0@.map_values(|m: MatchHistory| m@) == store@.matches_of(uuid@),
{
    let v = collect_matches(store, &uuid);
    if v.len() > 0 {
        Ok(v)
    } else {
        proof {
            assert(store@.matches_of(uuid@).len() == 0);
        }
        Err(())
    }
}

} // verus!
