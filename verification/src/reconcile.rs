//! Reconciliation of a freshly polled roster against the history store.
//!
//! For each roster entry whose identity resolved, the store is touched
//! (summary), the current name is recorded if new, and the match is recorded
//! if new; the entry is then enriched with the pre-touch history merged with
//! exactly the records just inserted, so the newly recorded match appears in
//! the snapshot once — not zero times and not twice. An entry whose identity
//! did not resolve is dropped from the output without failing the batch.

use vstd::prelude::*;

use crate::database::{
    spec_record_match, spec_record_name, spec_touch, HistoryStore, MatchHistory, MatchRec,
    NameHistory, NameRec, StoreView, add_new_match, add_new_name, collect_matches, collect_names,
    get_user, touch_summary, lemma_touch_wf, lemma_record_name_wf, lemma_record_match_wf,
};
use crate::live_match::{CurrentGameMatch, MatchOutcome, Player, PlayerRec, PollError};
use crate::name_service::{spec_find_name, lemma_spec_find_name, find_name, NameService, NameSvcRec};
use crate::{LoadedPlayer, LoadedPlayerRec, SessionContext, TeamType};

verus! {

/// Why a reconciliation pass could not produce a snapshot.
#[derive(Debug, Clone, Copy, PartialEq, Eq, Structural)]
pub enum ReconcileError {
    /// The poll itself failed; carries the poll failure kind.
    Poll(PollError),
    /// The batch identity lookup failed as a whole.
    IdentityResolution,
    /// The roster does not contain the observing account, so enemy sides
    /// cannot be computed.
    ObserverNotInRoster,
}

/// Result of one reconciliation pass.
#[derive(Debug)]
pub enum ReconcileOutcome {
    /// No match, or the match already processed: the caller keeps its prior
    /// snapshot and retries at the next interval.
    NotCurrentlyRelevant,
    /// A new match was reconciled: the enriched roster, and the match id to
    /// use as `previous_match_id` on the next cycle.
    Reconciled(Vec<LoadedPlayer>, String),
}

/// Position of the first roster entry for `uuid`, if any.
pub open spec fn spec_find_player(players: Seq<PlayerRec>, uuid: Seq<char>) -> Option<int>
    decreases players.len(),
{
    if players.len() == 0 {
        None
    } else if players[0].player_identity.uuid == uuid {
        Some(0)
    } else {
        match spec_find_player(players.drop_first(), uuid) {
            Some(i) => Some(i + 1),
            None => None,
        }
    }
}

/// `spec_find_player` finds the first entry for `uuid`, and finds none
/// exactly when the roster holds no entry for `uuid`.
pub proof fn lemma_spec_find_player(players: Seq<PlayerRec>, uuid: Seq<char>)
    ensures
        match spec_find_player(players, uuid) {
            Some(i) => 0 <= i < players.len() && players[i].player_identity.uuid == uuid
                && (forall|k: int|
                0 <= k < i ==> (#[trigger] players[k]).player_identity.uuid != uuid),
            None => forall|k: int|
                0 <= k < players.len() ==> (#[trigger] players[k]).player_identity.uuid != uuid,
        },
    decreases players.len(),
{
    if players.len() == 0 {
    } else if players[0].player_identity.uuid == uuid {
    } else {
        let df = players.drop_first();
        lemma_spec_find_player(df, uuid);
        match spec_find_player(df, uuid) {
            Some(i) => {
                assert(df[i] == players[i + 1]);
                assert forall|k: int|
                    0 <= k < i + 1 implies (#[trigger] players[k]).player_identity.uuid != uuid by {
                    if k > 0 {
                        assert(df[k - 1] == players[k]);
                        assert(df[k - 1].player_identity.uuid != uuid);
                    }
                }
            },
            None => {
                assert forall|k: int|
                    0 <= k < players.len() implies (#[trigger] players[k]).player_identity.uuid
                    != uuid by {
                    if k > 0 {
                        assert(df[k - 1] == players[k]);
                        assert(df[k - 1].player_identity.uuid != uuid);
                    }
                }
            },
        }
    }
}

/// Find the first roster entry for `uuid`.
fn find_player(players: &Vec<Player>, uuid: &String) -> (r: Option<usize>)
    ensures
        match r {
            Some(i) => i < players@.len() && spec_find_player(
                players@.map_values(|p: Player| p@),
                uuid@,
            ) == Some(i as int),
            None => spec_find_player(players@.map_values(|p: Player| p@), uuid@) is None,
        },
{
    let ghost view = players@.map_values(|p: Player| p@);
    let n = players.len();
    let mut i: usize = 0;
    while i < n
        invariant
            n == players@.len(),
            i <= n,
            view == players@.map_values(|q: Player| q@),
            forall|k: int| 0 <= k < i ==> (#[trigger] view[k]).player_identity.uuid != uuid@,
        decreases n - i,
    {
        if players[i].player_identity.uuid == *uuid {
            proof {
                lemma_spec_find_player(view, uuid@);
                assert(view[i as int].player_identity.uuid == uuid@);
                if spec_find_player(view, uuid@) is None {
                    assert(false);
                }
                let j = spec_find_player(view, uuid@)->Some_0;
                if j < i {
                    assert(view[j].player_identity.uuid == uuid@);
                    assert(false);
                } else if i < j {
                    assert(view[i as int].player_identity.uuid != uuid@);
                    assert(false);
                }
            }
            return Some(i);
        }
        i += 1;
    }
    proof {
        lemma_spec_find_player(view, uuid@);
        if spec_find_player(view, uuid@) is Some {
            let j = spec_find_player(view, uuid@)->Some_0;
            assert(view[j].player_identity.uuid == uuid@);
            assert(false);
        }
    }
    None
}

/// The enriched snapshot of one roster entry, built from the store as it
/// stood before this entry's writes: the pre-touch summary (zero-defaults
/// for a first encounter, with last_played defaulting to now), and each
/// history extended by the one record this pass inserts, if it was new.
pub open spec fn spec_enrich(
    store: StoreView,
    p: PlayerRec,
    n: NameSvcRec,
    observer_team: Seq<char>,
    match_id: Seq<char>,
    map_id: Seq<char>,
    gamemode_id: Seq<char>,
    now: int,
) -> LoadedPlayerRec {
    let uuid = p.player_identity.uuid;
    let enemy = p.team_id != observer_team;
    LoadedPlayerRec {
        uuid: uuid,
        name: n.game_name,
        tag: n.tag_line,
        team: if enemy {
            TeamType::Enemy
        } else {
            TeamType::Ally
        },
        match_history: store.matches_of(uuid) + if store.has_match(uuid, match_id) {
            Seq::empty()
        } else {
            seq![
                MatchRec {
                    uuid: uuid,
                    match_id: match_id,
                    map_id: map_id,
                    gamemode_id: Some(gamemode_id),
                    enemy: Some(enemy),
                    agent_id: p.agent_id,
                    match_time: now,
                },
            ]
        },
        name_history: store.names_of(uuid) + if store.has_name(uuid, n.game_name, n.tag_line) {
            Seq::empty()
        } else {
            seq![NameRec { uuid: uuid, name: n.game_name, tag: n.tag_line, name_time: Some(now) }]
        },
        times_played: if store.has_user(uuid) {
            store.user(uuid).times_played
        } else {
            0
        },
        last_played: if store.has_user(uuid) {
            store.user(uuid).last_played
        } else {
            now
        },
        agent_id: p.agent_id,
        incognito: p.player_identity.incognito,
    }
}

/// The store after one roster entry's writes: summary touched, the current
/// (name, tag) recorded if new, this match recorded if new.
pub open spec fn spec_store_after_player(
    store: StoreView,
    p: PlayerRec,
    n: NameSvcRec,
    observer_team: Seq<char>,
    match_id: Seq<char>,
    map_id: Seq<char>,
    gamemode_id: Seq<char>,
    now: int,
) -> StoreView {
    let uuid = p.player_identity.uuid;
    let touched = spec_touch(store, uuid, now);
    let named = spec_record_name(touched, uuid, n.game_name, n.tag_line, now);
    spec_record_match(
        named,
        uuid,
        match_id,
        map_id,
        gamemode_id,
        p.agent_id,
        p.team_id != observer_team,
        now,
    )
}

/// The inputs a reconciliation pass holds fixed: the resolved identity
/// batch, the observer's team, the match metadata, and the timestamp.
#[verifier::ext_equal]
pub ghost struct ReconcileCtx {
    pub names: Seq<NameSvcRec>,
    pub observer_team: Seq<char>,
    pub match_id: Seq<char>,
    pub map_id: Seq<char>,
    pub gamemode_id: Seq<char>,
    pub now: int,
}

/// Store and output of a reconciliation pass.
#[verifier::ext_equal]
pub ghost struct ReconcileState {
    pub store: StoreView,
    pub players: Seq<LoadedPlayerRec>,
}

/// Reconcile the roster entries in order: a resolved entry contributes its
/// enriched snapshot and its store writes; an unresolved entry is skipped.
pub open spec fn spec_reconcile(
    store: StoreView,
    players: Seq<PlayerRec>,
    ctx: ReconcileCtx,
) -> ReconcileState
    decreases players.len(),
{
    if players.len() == 0 {
        ReconcileState { store: store, players: Seq::empty() }
    } else {
        let p = players[0];
        match spec_find_name(ctx.names, p.player_identity.uuid) {
            Some(i) => {
                let enriched = spec_enrich(
                    store,
                    p,
                    ctx.names[i],
                    ctx.observer_team,
                    ctx.match_id,
                    ctx.map_id,
                    ctx.gamemode_id,
                    ctx.now,
                );
                let store1 = spec_store_after_player(
                    store,
                    p,
                    ctx.names[i],
                    ctx.observer_team,
                    ctx.match_id,
                    ctx.map_id,
                    ctx.gamemode_id,
                    ctx.now,
                );
                let rest = spec_reconcile(store1, players.drop_first(), ctx);
                ReconcileState { store: rest.store, players: seq![enriched] + rest.players }
            },
            None => spec_reconcile(store, players.drop_first(), ctx),
        }
    }
}

/// Process one resolved roster entry: read the pre-touch records, write the
/// summary touch and the two idempotent inserts, and assemble the enriched
/// snapshot merging the pre-touch history with what was just inserted.
fn enrich_one(
    store: &mut HistoryStore,
    p: &Player,
    nm: &NameService,
    observer_team: &String,
    match_id: &String,
    map_id: &String,
    gamemode_id: &String,
    now: i64,
) -> (out: LoadedPlayer)
    requires
        old(store).wf(),
    ensures
        final(store).wf(),
        final(store)@ == spec_store_after_player(
            old(store)@,
            p@,
            nm@,
            observer_team@,
            match_id@,
            map_id@,
            gamemode_id@,
            now as int,
        ),
        out@ == spec_enrich(
            old(store)@,
            p@,
            nm@,
            observer_team@,
            match_id@,
            map_id@,
            gamemode_id@,
            now as int,
        ),
{
    let ghost pre = store@;
    let uuid = &p.player_identity.uuid;

    // Pre-touch reads: what the store knew before this sighting.
    let mut name_history = collect_names(store, uuid);
    let mut match_history = collect_matches(store, uuid);
    let pre_summary = get_user(store, uuid.clone());
    let times_played: i64 = match &pre_summary {
        Ok(u) => u.times_played,
        Err(_) => 0,
    };
    let last_played: i64 = match &pre_summary {
        Ok(u) => u.last_played,
        Err(_) => now,
    };

    // Writes, all idempotent with respect to repeated polls of this match.
    let _ = touch_summary(store, uuid, now);
    let name_inserted = add_new_name(
        store,
        uuid.clone(),
        nm.game_name.clone(),
        nm.tag_line.clone(),
        now,
    );
    let enemy = !(p.team_id == *observer_team);
    let match_inserted = add_new_match(
        store,
        uuid.clone(),
        match_id.clone(),
        map_id.clone(),
        gamemode_id.clone(),
        p.agent_id.clone(),
        enemy,
        now,
    );

    // Merge: the snapshot shows the pre-touch history plus exactly the
    // records inserted above, so the new match appears once.
    if name_inserted.is_ok() {
        name_history.push(
            NameHistory {
                rowid: None,
                uuid: uuid.clone(),
                name: nm.game_name.clone(),
                tag: nm.tag_line.clone(),
                name_time: Some(now),
            },
        );
    }
    if match_inserted.is_ok() {
        match_history.push(
            MatchHistory {
                rowid: None,
                uuid: uuid.clone(),
                match_id: match_id.clone(),
                map_id: map_id.clone(),
                gamemode_id: Some(gamemode_id.clone()),
                enemy: Some(enemy),
                agent_id: p.agent_id.clone(),
                match_time: now,
            },
        );
    }

    let out = LoadedPlayer {
        uuid: uuid.clone(),
        name: nm.game_name.clone(),
        tag: nm.tag_line.clone(),
        team: if enemy {
            TeamType::Enemy
        } else {
            TeamType::Ally
        },
        match_history: match_history,
        name_history: name_history,
        times_played: times_played,
        last_played: last_played,
        agent_id: p.agent_id.clone(),
        incognito: p.player_identity.incognito,
    };
    proof {
        lemma_touch_wf(pre, uuid@, now as int);
        let touched = spec_touch(pre, uuid@, now as int);
        lemma_record_name_wf(touched, uuid@, nm.game_name@, nm.tag_line@, now as int);
        let named = spec_record_name(touched, uuid@, nm.game_name@, nm.tag_line@, now as int);
        lemma_record_match_wf(
            named,
            uuid@,
            match_id@,
            map_id@,
            gamemode_id@,
            p.agent_id@,
            enemy,
            now as int,
        );
        let expect = spec_enrich(
            pre,
            p@,
            nm@,
            observer_team@,
            match_id@,
            map_id@,
            gamemode_id@,
            now as int,
        );
        assert(out@.name_history =~= expect.name_history);
        assert(out@.match_history =~= expect.match_history);
        assert(out@ =~= expect);
    }
    out
}

/// Reconcile a fetched roster against the store: resolve each entry in
/// roster order, skip the unresolved ones, write the idempotent records,
/// and return the enriched snapshot together with the match id. Fails only
/// when the observing account is missing from the roster, in which case the
/// store is left untouched.
pub fn reconcile_roster(
    store: &mut HistoryStore,
    session: &SessionContext,
    roster: &CurrentGameMatch,
    names: &Vec<NameService>,
    now: i64,
) -> (r: Result<(Vec<LoadedPlayer>, String), ReconcileError>)
    requires
        old(store).wf(),
    ensures
        final(store).wf(),
        ({
            let ps = roster@.players;
            match spec_find_player(ps, session.puuid@) {
                None => {
                    &&& r == Err::<(Vec<LoadedPlayer>, String), ReconcileError>(
                        ReconcileError::ObserverNotInRoster,
                    )
                    &&& final(store)@ == old(store)@
                },
                Some(oi) => {
                    let ctx = ReconcileCtx {
                        names: names@.map_values(|n: NameService| n@),
                        observer_team: ps[oi].team_id,
                        match_id: roster.match_id@,
                        map_id: roster.map_id@,
                        gamemode_id: roster.gamemode_id@,
                        now: now as int,
                    };
                    let t = spec_reconcile(old(store)@, ps, ctx);
                    &&& r is Ok
                    &&& final(store)@ == t.store
                    &&& r->Ok_0.0@.map_values(|q: LoadedPlayer| q@) == t.players
                    &&& r->Ok_0.1@ == roster.match_id@
                },
            }
        }),
{
    let ghost ps = roster@.players;
    let observer = match find_player(&roster.players, &session.puuid) {
        Some(oi) => oi,
        None => {
            return Err(ReconcileError::ObserverNotInRoster);
        },
    };
    proof {
        lemma_spec_find_player(ps, session.puuid@);
    }
    let observer_team = roster.players[observer].team_id.clone();
    let ghost ctx = ReconcileCtx {
        names: names@.map_values(|n: NameService| n@),
        observer_team: observer_team@,
        match_id: roster.match_id@,
        map_id: roster.map_id@,
        gamemode_id: roster.gamemode_id@,
        now: now as int,
    };
    proof {
        lemma_spec_find_player(ps, session.puuid@);
        assert(ps[spec_find_player(ps, session.puuid@)->Some_0].team_id == observer_team@);
    }
    let ghost store0 = store@;
    let mut out: Vec<LoadedPlayer> = Vec::new();
    let n = roster.players.len();
    let mut i: usize = 0;
    proof {
        assert(ps.skip(0) =~= ps);
        assert(out@.map_values(|q: LoadedPlayer| q@) =~= Seq::<LoadedPlayerRec>::empty());
        assert(out@.map_values(|q: LoadedPlayer| q@) + spec_reconcile(store@, ps, ctx).players
            =~= spec_reconcile(store@, ps, ctx).players);
    }
    while i < n
        invariant
            n == ps.len(),
            i <= n,
            ps == roster@.players,
            ctx == (ReconcileCtx {
                names: names@.map_values(|n: NameService| n@),
                observer_team: observer_team@,
                match_id: roster.match_id@,
                map_id: roster.map_id@,
                gamemode_id: roster.gamemode_id@,
                now: now as int,
            }),
            store.wf(),
            spec_reconcile(store0, ps, ctx) == (ReconcileState {
                store: spec_reconcile(store@, ps.skip(i as int), ctx).store,
                players: out@.map_values(|q: LoadedPlayer| q@) + spec_reconcile(
                    store@,
                    ps.skip(i as int),
                    ctx,
                ).players,
            }),
        decreases n - i,
    {
        let ghost cur = store@;
        let ghost rem = ps.skip(i as int);
        let ghost out_pre = out@;
        proof {
            assert(rem[0] == ps[i as int]);
            assert(rem.drop_first() =~= ps.skip(i + 1 as int));
        }
        let p = &roster.players[i];
        proof {
            assert(p@ == ps[i as int]);
        }
        match find_name(names, &p.player_identity.uuid) {
            Some(ni) => {
                proof {
                    lemma_spec_find_name(ctx.names, ps[i as int].player_identity.uuid);
                }
                let nm = &names[ni];
                let ghost enriched_rec = spec_enrich(
                    cur,
                    ps[i as int],
                    ctx.names[ni as int],
                    ctx.observer_team,
                    ctx.match_id,
                    ctx.map_id,
                    ctx.gamemode_id,
                    ctx.now,
                );
                let enriched = enrich_one(
                    store,
                    p,
                    nm,
                    &observer_team,
                    &roster.match_id,
                    &roster.map_id,
                    &roster.gamemode_id,
                    now,
                );
                out.push(enriched);
                proof {
                    assert(nm@ == ctx.names[ni as int]);
                    let rest = spec_reconcile(store@, ps.skip(i + 1 as int), ctx);
                    assert(spec_reconcile(cur, rem, ctx) == (ReconcileState {
                        store: rest.store,
                        players: seq![enriched_rec] + rest.players,
                    }));
                    assert(out@.map_values(|q: LoadedPlayer| q@) =~= out_pre.map_values(
                        |q: LoadedPlayer| q@,
                    ) + seq![enriched_rec]);
                    assert(out@.map_values(|q: LoadedPlayer| q@) + rest.players =~= out_pre.map_values(
                        |q: LoadedPlayer| q@,
                    ) + (seq![enriched_rec] + rest.players));
                }
            },
            None => {
                proof {
                    assert(spec_reconcile(cur, rem, ctx) == spec_reconcile(
                        cur,
                        ps.skip(i + 1 as int),
                        ctx,
                    ));
                }
            },
        }
        i += 1;
    }
    proof {
        assert(ps.skip(n as int) =~= Seq::<PlayerRec>::empty());
        assert(spec_reconcile(store@, ps.skip(n as int), ctx).players =~= Seq::<
            LoadedPlayerRec,
        >::empty());
        assert(out@.map_values(|q: LoadedPlayer| q@) + Seq::<LoadedPlayerRec>::empty() =~= out@.map_values(
            |q: LoadedPlayer| q@,
        ));
    }
    Ok((out, roster.match_id.clone()))
}

/// One reconciliation pass over a poll outcome. No match, the match already
/// being processed, or a roster whose id equals `previous_match_id` leave
/// the store untouched and report nothing new; a genuinely new roster is
/// reconciled, provided the identity batch arrived at all.
pub fn reconcile(
    store: &mut HistoryStore,
    session: &SessionContext,
    previous_match_id: &String,
    outcome: MatchOutcome,
    names: Option<Vec<NameService>>,
    now: i64,
) -> (r: Result<ReconcileOutcome, ReconcileError>)
    requires
        old(store).wf(),
    ensures
        final(store).wf(),
        match outcome {
            MatchOutcome::NoMatch => r is Ok && r->Ok_0 is NotCurrentlyRelevant && final(store)@
                == old(store)@,
            MatchOutcome::SameMatch(_) => r is Ok && r->Ok_0 is NotCurrentlyRelevant
                && final(store)@ == old(store)@,
            MatchOutcome::NewMatch(m) => {
                if m.match_id@ == previous_match_id@ {
                    r is Ok && r->Ok_0 is NotCurrentlyRelevant && final(store)@ == old(store)@
                } else {
                    match names {
                        None => r == Err::<ReconcileOutcome, ReconcileError>(
                            ReconcileError::IdentityResolution,
                        ) && final(store)@ == old(store)@,
                        Some(ns) => match spec_find_player(m@.players, session.puuid@) {
                            None => r == Err::<ReconcileOutcome, ReconcileError>(
                                ReconcileError::ObserverNotInRoster,
                            ) && final(store)@ == old(store)@,
                            Some(oi) => {
                                let ctx = ReconcileCtx {
                                    names: ns@.map_values(|n: NameService| n@),
                                    observer_team: m@.players[oi].team_id,
                                    match_id: m.match_id@,
                                    map_id: m.map_id@,
                                    gamemode_id: m.gamemode_id@,
                                    now: now as int,
                                };
                                let t = spec_reconcile(old(store)@, m@.players, ctx);
                                &&& r is Ok
                                &&& r->Ok_0 is Reconciled
                                &&& final(store)@ == t.store
                                &&& r->Ok_0->Reconciled_0@.map_values(|q: LoadedPlayer| q@)
                                    == t.players
                                &&& r->Ok_0->Reconciled_1@ == m.match_id@
                            },
                        },
                    }
                }
            },
        },
{
    match outcome {
        MatchOutcome::NoMatch => Ok(ReconcileOutcome::NotCurrentlyRelevant),
        MatchOutcome::SameMatch(_) => Ok(ReconcileOutcome::NotCurrentlyRelevant),
        MatchOutcome::NewMatch(m) => {
            if m.match_id == *previous_match_id {
                Ok(ReconcileOutcome::NotCurrentlyRelevant)
            } else {
                match names {
                    None => Err(ReconcileError::IdentityResolution),
                    Some(ns) => match reconcile_roster(store, session, &m, &ns, now) {
                        Ok(pair) => Ok(ReconcileOutcome::Reconciled(pair.0, pair.1)),
                        Err(e) => Err(e),
                    },
                }
            }
        },
    }
}

/// The predicate selecting the roster entries whose identity is present in
/// a resolved batch.
pub open spec fn resolved_in(names: Seq<NameSvcRec>) -> spec_fn(PlayerRec) -> bool {
    |p: PlayerRec| spec_find_name(names, p.player_identity.uuid) is Some
}

/// Partial resolver failure isolation, and enemy computation: a
/// reconciliation pass yields exactly one enriched player per resolved
/// roster entry, in roster order — an unresolved entry costs only itself —
/// and each carries its entry's uuid and agent, and is an ally exactly when
/// its entry's team equals the observer's team.
pub proof fn lemma_reconcile_players(store: StoreView, players: Seq<PlayerRec>, ctx: ReconcileCtx)
    ensures
        ({
            let t = spec_reconcile(store, players, ctx);
            let res = players.filter(resolved_in(ctx.names));
            &&& t.players.len() == res.len()
            &&& forall|k: int|
                0 <= k < res.len() ==> {
                    &&& (#[trigger] t.players[k]).uuid == res[k].player_identity.uuid
                    &&& t.players[k].agent_id == res[k].agent_id
                    &&& t.players[k].incognito == res[k].player_identity.incognito
                    &&& t.players[k].team == (if res[k].team_id == ctx.observer_team {
                        TeamType::Ally
                    } else {
                        TeamType::Enemy
                    })
                }
        }),
    decreases players.len(),
{
    broadcast use vstd::seq_lib::group_filter_ensures;

    if players.len() == 0 {
        assert(players.filter(resolved_in(ctx.names)).len() == 0);
    } else {
        let p0 = players[0];
        let df = players.drop_first();
        assert(players =~= seq![p0] + df);
        df.lemma_filter_prepend(p0, resolved_in(ctx.names));
        let t = spec_reconcile(store, players, ctx);
        let res = players.filter(resolved_in(ctx.names));
        let dres = df.filter(resolved_in(ctx.names));
        match spec_find_name(ctx.names, p0.player_identity.uuid) {
            Some(i) => {
                assert(resolved_in(ctx.names)(p0));
                assert(res =~= seq![p0] + dres);
                let store1 = spec_store_after_player(
                    store,
                    p0,
                    ctx.names[i],
                    ctx.observer_team,
                    ctx.match_id,
                    ctx.map_id,
                    ctx.gamemode_id,
                    ctx.now,
                );
                lemma_reconcile_players(store1, df, ctx);
                let rest = spec_reconcile(store1, df, ctx);
                let enr = spec_enrich(
                    store,
                    p0,
                    ctx.names[i],
                    ctx.observer_team,
                    ctx.match_id,
                    ctx.map_id,
                    ctx.gamemode_id,
                    ctx.now,
                );
                assert(t.players =~= seq![enr] + rest.players);
                assert forall|k: int| 0 <= k < res.len() implies {
                    &&& (#[trigger] t.players[k]).uuid == res[k].player_identity.uuid
                    &&& t.players[k].agent_id == res[k].agent_id
                    &&& t.players[k].incognito == res[k].player_identity.incognito
                    &&& t.players[k].team == (if res[k].team_id == ctx.observer_team {
                        TeamType::Ally
                    } else {
                        TeamType::Enemy
                    })
                } by {
                    if k == 0 {
                        assert(t.players[0] == enr);
                        assert(res[0] == p0);
                    } else {
                        assert(t.players[k] == rest.players[k - 1]);
                        assert(res[k] == dres[k - 1]);
                    }
                }
            },
            None => {
                assert(!resolved_in(ctx.names)(p0));
                assert(res =~= dres);
                lemma_reconcile_players(store, df, ctx);
            },
        }
    }
}

} // verus!
