//! Import of player history from the VRY interchange format into the store.
//!
//! Reading and JSON-decoding the file happen outside the library; what
//! arrives here is one entry per player: a uuid and that player's match
//! history, each row carrying a combined "Name#Tag" string. The import
//! records every match idempotently, records each distinct name once
//! (splitting it at its first two hash marks; a name without a hash mark is
//! skipped), and finally inserts a summary for a player not yet known.

use vstd::prelude::*;

use crate::database::{
    add_new_match, add_new_name, add_user_full, spec_record_match, spec_record_name, HistoryStore,
    StoreView,
};

verus! {

/// One imported match row: the player's combined name, the agent, the map,
/// the match id, and the epoch timestamp of the match.
#[derive(Debug, Clone, Default)]
pub struct VryPlayerHistory {
    pub name: String,
    pub agent: String,
    pub map: String,
    pub match_id: String,
    pub time: i64,
}

/// Mathematical model of an imported match row.
#[verifier::ext_equal]
pub ghost struct VryRec {
    pub name: Seq<char>,
    pub agent: Seq<char>,
    pub map: Seq<char>,
    pub match_id: Seq<char>,
    pub time: int,
}

impl View for VryPlayerHistory {
    type V = VryRec;

    open spec fn view(&self) -> VryRec {
        VryRec {
            name: self.name@,
            agent: self.agent@,
            map: self.map@,
            match_id: self.match_id@,
            time: self.time as int,
        }
    }
}

/// One player's worth of imported history.
#[derive(Debug, Clone, Default)]
pub struct VryImport {
    pub uuid: String,
    pub history: Vec<VryPlayerHistory>,
}

/// Mathematical model of one player's import entry.
#[verifier::ext_equal]
pub ghost struct VryImportRec {
    pub uuid: Seq<char>,
    pub history: Seq<VryRec>,
}

impl View for VryImport {
    type V = VryImportRec;

    open spec fn view(&self) -> VryImportRec {
        VryImportRec {
            uuid: self.uuid@,
            history: self.history@.map_values(|h: VryPlayerHistory| h@),
        }
    }
}

/// The import host.
pub struct Converter {}

/// The store and the number of fresh inserts after recording a player's
/// imported matches in order, each with an empty game mode, no enemy flag
/// and its row's timestamp.
pub open spec fn spec_import_matches(store: StoreView, uuid: Seq<char>, hs: Seq<VryRec>) -> (
    StoreView,
    int,
)
    decreases hs.len(),
{
    if hs.len() == 0 {
        (store, 0int)
    } else {
        let fresh = !store.has_match(uuid, hs[0].match_id);
        let store1 = spec_record_match(
            store,
            uuid,
            hs[0].match_id,
            hs[0].map,
            Seq::<char>::empty(),
            hs[0].agent,
            false,
            hs[0].time,
        );
        let rest = spec_import_matches(store1, uuid, hs.drop_first());
        (rest.0, (if fresh {
            1int
        } else {
            0int
        }) + rest.1)
    }
}

/// Index of the first hash mark at or after `i`, or the length if none.
pub open spec fn first_hash_from(s: Seq<char>, i: int) -> int
    decreases s.len() - i,
{
    if i < 0 || i >= s.len() {
        s.len() as int
    } else if s[i] == '#' {
        i
    } else {
        first_hash_from(s, i + 1)
    }
}

/// What a combined "Name#Tag" string yields: the part before the first hash
/// mark and the part between the first and second, or nothing when the
/// string has no hash mark at all.
pub open spec fn split_name(s: Seq<char>) -> Option<(Seq<char>, Seq<char>)> {
    let h1 = first_hash_from(s, 0);
    if h1 == s.len() {
        None
    } else {
        Some((s.subrange(0, h1), s.subrange(h1 + 1, first_hash_from(s, h1 + 1))))
    }
}

/// First-occurrence deduplication of a list of names.
pub open spec fn spec_dedup(s: Seq<Seq<char>>) -> Seq<Seq<char>>
    decreases s.len(),
{
    if s.len() == 0 {
        s
    } else {
        let d = spec_dedup(s.drop_last());
        if d.contains(s.last()) {
            d
        } else {
            d.push(s.last())
        }
    }
}

/// The store after recording each well-formed combined name in `raw` for
/// `uuid` at time `now`; a name without a hash mark records nothing.
pub open spec fn spec_import_names(
    store: StoreView,
    uuid: Seq<char>,
    raw: Seq<Seq<char>>,
    now: int,
) -> StoreView
    decreases raw.len(),
{
    if raw.len() == 0 {
        store
    } else {
        let store1 = match split_name(raw[0]) {
            Some(nt) => spec_record_name(store, uuid, nt.0, nt.1, now),
            None => store,
        };
        spec_import_names(store1, uuid, raw.drop_first(), now)
    }
}

/// The store and fresh-insert count after importing one player: matches in
/// order, then each distinct name once, then a summary (match count and
/// last epoch) for a player not already known.
pub open spec fn spec_import_entry(store: StoreView, e: VryImportRec, now: int) -> (StoreView, int) {
    let after_matches = spec_import_matches(store, e.uuid, e.history);
    let after_names = spec_import_names(
        after_matches.0,
        e.uuid,
        spec_dedup(e.history.map_values(|h: VryRec| h.name)),
        now,
    );
    let last_played = if e.history.len() > 0 {
        e.history.last().time
    } else {
        0int
    };
    let final_store = if after_names.has_user(e.uuid) {
        after_names
    } else {
        StoreView {
            users: after_names.users.push(
                crate::database::UserRec {
                    uuid: e.uuid,
                    times_played: e.history.len() as int,
                    last_played: last_played,
                },
            ),
            names: after_names.names,
            matches: after_names.matches,
        }
    };
    (final_store, after_matches.1)
}

/// The store and fresh-insert count after importing every entry in order.
pub open spec fn spec_import(store: StoreView, es: Seq<VryImportRec>, now: int) -> (StoreView, int)
    decreases es.len(),
{
    if es.len() == 0 {
        (store, 0int)
    } else {
        let one = spec_import_entry(store, es[0], now);
        let rest = spec_import(one.0, es.drop_first(), now);
        (rest.0, one.1 + rest.1)
    }
}

/// Total number of match rows across all entries.
pub open spec fn spec_total(es: Seq<VryImportRec>) -> int
    decreases es.len(),
{
    if es.len() == 0 {
        0int
    } else {
        es[0].history.len() + spec_total(es.drop_first())
    }
}

/// The total is never negative.
proof fn lemma_spec_total_nonneg(es: Seq<VryImportRec>)
    ensures
        spec_total(es) >= 0,
    decreases es.len(),
{
    if es.len() > 0 {
        lemma_spec_total_nonneg(es.drop_first());
    }
}

/// Peeling one entry off the remainder of an import.
proof fn lemma_spec_total_skip(es: Seq<VryImportRec>, k: int)
    requires
        0 <= k < es.len(),
    ensures
        spec_total(es.skip(k)) == es[k].history.len() + spec_total(es.skip(k + 1)),
        spec_total(es.skip(k + 1)) >= 0,
{
    assert(es.skip(k).drop_first() =~= es.skip(k + 1));
    assert(es.skip(k)[0] == es[k]);
    lemma_spec_total_nonneg(es.skip(k + 1));
}

/// A region without hash marks holds no hash mark.
proof fn lemma_first_hash_skip(s: Seq<char>, i: int, j: int)
    requires
        0 <= i <= j <= s.len(),
        forall|k: int| i <= k < j ==> s[k] != '#',
    ensures
        first_hash_from(s, i) == first_hash_from(s, j),
    decreases j - i,
{
    if i < j {
        lemma_first_hash_skip(s, i + 1, j);
    }
}

/// Position of the first hash mark at or after `from`; the length if none.
fn find_hash(s: &str, from: usize) -> (r: usize)
    requires
        from <= s@.len(),
    ensures
        r == first_hash_from(s@, from as int),
        from <= r <= s@.len(),
{
    let len = s.unicode_len();
    let mut i: usize = from;
    while i < len
        invariant
            from <= i <= len,
            len == s@.len(),
            forall|k: int| from <= k < i ==> s@[k] != '#',
        decreases len - i,
    {
        let c = s.get_char(i);
        if c == '#' {
            proof {
                lemma_first_hash_skip(s@, from as int, i as int);
            }
            return i;
        }
        i += 1;
    }
    proof {
        lemma_first_hash_skip(s@, from as int, len as int);
    }
    len
}

/// Split a combined "Name#Tag" string at its first two hash marks.
fn split_name_exec(s: &String) -> (r: Option<(String, String)>)
    ensures
        match split_name(s@) {
            None => r is None,
            Some(nt) => r is Some && r->Some_0.0@ == nt.0 && r->Some_0.1@ == nt.1,
        },
{
    let st = s.as_str();
    let len = st.unicode_len();
    let h1 = find_hash(st, 0);
    if h1 == len {
        None
    } else {
        let h2 = find_hash(st, h1 + 1);
        let name = st.substring_char(0, h1).to_owned();
        let tag = st.substring_char(h1 + 1, h2).to_owned();
        Some((name, tag))
    }
}

/// Whether a list of names already holds this one.
fn contains_name(v: &Vec<String>, x: &String) -> (b: bool)
    ensures
        b == v@.map_values(|s: String| s@).contains(x@),
{
    let ghost views = v@.map_values(|s: String| s@);
    let n = v.len();
    let mut i: usize = 0;
    while i < n
        invariant
            n == v@.len(),
            views == v@.map_values(|s: String| s@),
            i <= n,
            forall|k: int| 0 <= k < i ==> views[k] != x@,
        decreases n - i,
    {
        if v[i] == *x {
            proof {
                assert(views[i as int] == x@);
            }
            return true;
        }
        i += 1;
    }
    proof {
        assert forall|k: int| 0 <= k < views.len() implies views[k] != x@ by {}
        if views.contains(x@) {
            let w = choose|w: int| 0 <= w < views.len() && views[w] == x@;
            assert(false);
        }
    }
    false
}

/// Keep the first occurrence of each name, in order.
fn dedup_names(names: &Vec<String>) -> (d: Vec<String>)
    ensures
        d@.map_values(|s: String| s@) == spec_dedup(names@.map_values(|s: String| s@)),
{
    let ghost raw = names@.map_values(|s: String| s@);
    let n = names.len();
    let mut d: Vec<String> = Vec::new();
    let mut i: usize = 0;
    while i < n
        invariant
            n == names@.len(),
            raw == names@.map_values(|s: String| s@),
            i <= n,
            d@.map_values(|s: String| s@) =~= spec_dedup(raw.take(i as int)),
        decreases n - i,
    {
        let ghost prefix = raw.take(i as int);
        if !contains_name(&d, &names[i]) {
            d.push(names[i].clone());
        }
        proof {
            assert(raw.take(i + 1 as int).drop_last() =~= prefix);
            assert(raw.take(i + 1 as int).last() == raw[i as int]);
            assert(d@.map_values(|s: String| s@) =~= spec_dedup(raw.take(i + 1 as int)));
        }
        i += 1;
    }
    proof {
        assert(raw.take(n as int) =~= raw);
    }
    d
}

impl Converter {
    /// Import one player's entry: every match row recorded idempotently,
    /// each distinct well-formed name recorded once, and a summary inserted
    /// when the player was not yet known. Returns how many match rows were
    /// fresh, out of how many.
    fn import_entry(store: &mut HistoryStore, e: &VryImport, now: i64) -> (c: (i32, i32))
        requires
            old(store).wf(),
            e@.history.len() <= i32::MAX,
        ensures
            final(store).wf(),
            final(store)@ == spec_import_entry(old(store)@, e@, now as int).0,
            c.0 == spec_import_entry(old(store)@, e@, now as int).1,
            0 <= c.0 <= c.1,
            c.1 == e@.history.len(),
    {
        let ghost pre = store@;
        let ghost hs = e@.history;
        let n = e.history.len();

        // Matches, in row order.
        let mut success: i32 = 0;
        let mut names_raw: Vec<String> = Vec::new();
        let mut last_played: i64 = 0;
        let mut i: usize = 0;
        proof {
            assert(hs.skip(0) =~= hs);
        }
        while i < n
            invariant
                n == hs.len(),
                n <= i32::MAX,
                hs == e@.history,
                i <= n,
                store.wf(),
                0 <= success <= i,
                spec_import_matches(pre, e.uuid@, hs) == (
                    spec_import_matches(store@, e.uuid@, hs.skip(i as int)).0,
                    success + spec_import_matches(store@, e.uuid@, hs.skip(i as int)).1,
                ),
                names_raw@.len() == i,
                forall|k: int| 0 <= k < i ==> (#[trigger] names_raw@[k])@ == hs[k].name,
                last_played as int == (if i > 0 {
                    hs[i - 1].time
                } else {
                    0int
                }),
            decreases n - i,
        {
            let ghost cur = store@;
            let ghost rem = hs.skip(i as int);
            proof {
                assert(rem[0] == hs[i as int]);
                assert(rem.drop_first() =~= hs.skip(i + 1 as int));
            }
            let h = &e.history[i];
            proof {
                assert(h@ == hs[i as int]);
            }
            last_played = h.time;
            names_raw.push(h.name.clone());
            let inserted = add_new_match(
                store,
                e.uuid.clone(),
                h.match_id.clone(),
                h.map.clone(),
                String::new(),
                h.agent.clone(),
                false,
                h.time,
            );
            if inserted.is_ok() {
                success = success + 1;
            }
            proof {
                let fresh = !cur.has_match(e.uuid@, rem[0].match_id);
                let store1 = spec_record_match(
                    cur,
                    e.uuid@,
                    rem[0].match_id,
                    rem[0].map,
                    Seq::<char>::empty(),
                    rem[0].agent,
                    false,
                    rem[0].time,
                );
                assert(store1 == store@);
                let rest2 = spec_import_matches(store1, e.uuid@, rem.drop_first());
                assert(spec_import_matches(cur, e.uuid@, rem) == (
                    rest2.0,
                    (if fresh {
                        1int
                    } else {
                        0int
                    }) + rest2.1,
                ));
                let rest = spec_import_matches(store@, e.uuid@, hs.skip(i + 1 as int));
                assert(rest2 == rest);
            }
            i += 1;
        }
        proof {
            assert(hs.skip(n as int) =~= Seq::<VryRec>::empty());
            assert(spec_import_matches(store@, e.uuid@, hs.skip(n as int)) == (store@, 0int));
            assert(names_raw@.map_values(|s: String| s@) =~= hs.map_values(|h: VryRec| h.name));
        }
        let ghost after_matches = store@;

        // Each distinct name once.
        let deduped = dedup_names(&names_raw);
        let ghost dv = spec_dedup(hs.map_values(|h: VryRec| h.name));
        let dn = deduped.len();
        let mut j: usize = 0;
        proof {
            assert(dv.skip(0) =~= dv);
        }
        while j < dn
            invariant
                dn == dv.len(),
                dv == spec_dedup(hs.map_values(|h: VryRec| h.name)),
                hs == e@.history,
                deduped@.map_values(|s: String| s@) == dv,
                j <= dn,
                store.wf(),
                spec_import_names(after_matches, e.uuid@, dv, now as int) == spec_import_names(
                    store@,
                    e.uuid@,
                    dv.skip(j as int),
                    now as int,
                ),
            decreases dn - j,
        {
            let ghost curb = store@;
            let ghost rem = dv.skip(j as int);
            proof {
                assert(rem[0] == dv[j as int]);
                assert(rem.drop_first() =~= dv.skip(j + 1 as int));
                assert(deduped@[j as int]@ == dv[j as int]);
            }
            match split_name_exec(&deduped[j]) {
                Some(nt) => {
                    let _ = add_new_name(store, e.uuid.clone(), nt.0, nt.1, now);
                },
                None => {},
            }
            proof {
                assert(spec_import_names(curb, e.uuid@, rem, now as int) == spec_import_names(
                    store@,
                    e.uuid@,
                    dv.skip(j + 1 as int),
                    now as int,
                ));
            }
            j += 1;
        }
        proof {
            assert(dv.skip(dn as int) =~= Seq::<Seq<char>>::empty());
            assert(spec_import_names(store@, e.uuid@, dv.skip(dn as int), now as int) == store@);
        }

        // A summary for a player not yet known.
        let total: i32 = n as i32;
        let _ = add_user_full(store, e.uuid.clone(), total as i64, last_played);
        proof {
            assert(store@ == spec_import_entry(pre, e@, now as int).0);
        }
        (success, total)
    }

    /// Import a whole decoded file: every entry in order. Returns how many
    /// match rows were freshly inserted, how many were already present, and
    /// how many there were in all.
    pub fn convert_vry_history(store: &mut HistoryStore, entries: &Vec<VryImport>, now: i64) -> (r:
        (i32, i32, i32))
        requires
            old(store).wf(),
            spec_total(entries@.map_values(|e: VryImport| e@)) <= i32::MAX,
        ensures
            final(store).wf(),
            final(store)@ == spec_import(
                old(store)@,
                entries@.map_values(|e: VryImport| e@),
                now as int,
            ).0,
            r.0 == spec_import(old(store)@, entries@.map_values(|e: VryImport| e@), now as int).1,
            r.2 == spec_total(entries@.map_values(|e: VryImport| e@)),
            r.1 == r.2 - r.0,
            0 <= r.0 <= r.2,
    {
        let ghost pre = store@;
        let ghost es = entries@.map_values(|e: VryImport| e@);
        let mut success: i32 = 0;
        let mut total: i32 = 0;
        let n = entries.len();
        let mut i: usize = 0;
        proof {
            assert(es.skip(0) =~= es);
            lemma_spec_total_nonneg(es);
        }
        while i < n
            invariant
                n == es.len(),
                es == entries@.map_values(|e: VryImport| e@),
                i <= n,
                store.wf(),
                spec_total(es) <= i32::MAX,
                total as int + spec_total(es.skip(i as int)) == spec_total(es),
                spec_total(es.skip(i as int)) >= 0,
                0 <= success <= total,
                spec_import(pre, es, now as int) == (
                    spec_import(store@, es.skip(i as int), now as int).0,
                    success + spec_import(store@, es.skip(i as int), now as int).1,
                ),
            decreases n - i,
        {
            let ghost cur = store@;
            let ghost rem = es.skip(i as int);
            proof {
                assert(rem[0] == es[i as int]);
                assert(rem.drop_first() =~= es.skip(i + 1 as int));
                lemma_spec_total_skip(es, i as int);
            }
            let e = &entries[i];
            proof {
                assert(e@ == es[i as int]);
            }
            let c = Converter::import_entry(store, e, now);
            success = success + c.0;
            total = total + c.1;
            i += 1;
        }
        proof {
            assert(es.skip(n as int) =~= Seq::<VryImportRec>::empty());
            assert(spec_import(store@, es.skip(n as int), now as int) == (store@, 0int));
        }
        (success, total - success, total)
    }
}

} // verus!
