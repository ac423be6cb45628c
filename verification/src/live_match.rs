//! Live-match polling: the roster data model, the classification of poll
//! responses into match outcomes, and the published match snapshot.
//!
//! The HTTP requests themselves are made outside the library. What comes
//! back is handed in as an [`ApiResponse`], and the functions here decide,
//! exactly and verifiably, what each response means: steady-state absence of
//! a match, the match already being processed, a fresh roster to reconcile,
//! or a transient failure that must not be mistaken for "no match".

use vstd::prelude::*;

use crate::LoadedPlayer;

verus! {

/// What an attempted API request produced, as observed at the network edge:
/// the request never went out or failed in transit, the service answered
/// with a non-success status, the body did not parse, or a parsed value.
#[derive(Debug)]
pub enum ApiResponse<T> {
    SendFailed,
    ErrorStatus,
    ParseFailed,
    Parsed(T),
}

/// Failure taxonomy of one poll. Client build failures are fatal per call;
/// network and deserialization failures are transient and retryable, and are
/// never conflated with the no-match steady state.
#[derive(Debug, Clone, Copy, PartialEq, Eq, Structural)]
pub enum PollError {
    ClientBuildFailure,
    NetworkFailure,
    DeserializationFailure,
}

/// What to do after reading the current-match pointer endpoint.
#[derive(Debug, Clone)]
pub enum PointerAction {
    /// Steady state: not currently in a match.
    ReportNoMatch,
    /// The match is the one already processed; no roster fetch is needed.
    ReportSameMatch(String),
    /// A match id not seen before; fetch its roster next.
    FetchRoster(String),
}

/// Outcome of one full poll of the match API.
#[derive(Debug)]
pub enum MatchOutcome {
    NoMatch,
    SameMatch(String),
    NewMatch(CurrentGameMatch),
}

/// The current-match pointer: the id of the match the account is in.
#[derive(Debug, Clone, Default)]
pub struct CurrentGamePlayer {
    pub match_id: String,
}

/// One roster entry of a live match.
#[derive(Debug, Clone, Default)]
pub struct Player {
    pub team_id: String,
    pub agent_id: String,
    pub player_identity: PlayerIdentity,
}

/// Identity block of a roster entry.
#[derive(Debug, Clone, Default)]
pub struct PlayerIdentity {
    pub uuid: String,
    pub card_id: String,
    pub title_id: String,
    pub level: u16,
    pub incognito: bool,
    pub hide_level: bool,
}

/// A live-match roster with its match metadata.
#[derive(Debug, Clone, Default)]
pub struct CurrentGameMatch {
    pub match_id: String,
    pub map_id: String,
    pub gamemode_id: String,
    pub game_pod: String,
    pub players: Vec<Player>,
}

/// Mathematical model of an identity block.
#[verifier::ext_equal]
pub ghost struct IdentityRec {
    pub uuid: Seq<char>,
    pub card_id: Seq<char>,
    pub title_id: Seq<char>,
    pub level: int,
    pub incognito: bool,
    pub hide_level: bool,
}

/// Mathematical model of a roster entry.
#[verifier::ext_equal]
pub ghost struct PlayerRec {
    pub team_id: Seq<char>,
    pub agent_id: Seq<char>,
    pub player_identity: IdentityRec,
}

/// Mathematical model of a roster.
#[verifier::ext_equal]
pub ghost struct RosterRec {
    pub match_id: Seq<char>,
    pub map_id: Seq<char>,
    pub gamemode_id: Seq<char>,
    pub game_pod: Seq<char>,
    pub players: Seq<PlayerRec>,
}

impl View for PlayerIdentity {
    type V = IdentityRec;

    open spec fn view(&self) -> IdentityRec {
        IdentityRec {
            uuid: self.uuid@,
            card_id: self.card_id@,
            title_id: self.title_id@,
            level: self.level as int,
            incognito: self.incognito,
            hide_level: self.hide_level,
        }
    }
}

impl View for Player {
    type V = PlayerRec;

    open spec fn view(&self) -> PlayerRec {
        PlayerRec {
            team_id: self.team_id@,
            agent_id: self.agent_id@,
            player_identity: self.player_identity@,
        }
    }
}

impl View for CurrentGameMatch {
    type V = RosterRec;

    open spec fn view(&self) -> RosterRec {
        RosterRec {
            match_id: self.match_id@,
            map_id: self.map_id@,
            gamemode_id: self.gamemode_id@,
            game_pod: self.game_pod@,
            players: self.players@.map_values(|p: Player| p@),
        }
    }
}

/// Decide what the current-match pointer response means. A missing success
/// or an unparsable body is the expected steady state (no match); a failure
/// to reach the service at all is a network error, never "no match"; a
/// parsed id equal to the one already processed short-circuits without any
/// roster fetch.
pub fn classify_pointer(previous_match_id: &String, resp: ApiResponse<CurrentGamePlayer>) -> (r:
    Result<PointerAction, PollError>)
    ensures
        match resp {
            ApiResponse::SendFailed => r == Err::<PointerAction, PollError>(
                PollError::NetworkFailure,
            ),
            ApiResponse::ErrorStatus => r is Ok && r->Ok_0 is ReportNoMatch,
            ApiResponse::ParseFailed => r is Ok && r->Ok_0 is ReportNoMatch,
            ApiResponse::Parsed(p) => r is Ok && (if p.match_id@ == previous_match_id@ {
                &&& r->Ok_0 is ReportSameMatch
                &&& r->Ok_0->ReportSameMatch_0@ == p.match_id@
            } else {
                &&& r->Ok_0 is FetchRoster
                &&& r->Ok_0->FetchRoster_0@ == p.match_id@
            }),
        },
{
    match resp {
        ApiResponse::SendFailed => Err(PollError::NetworkFailure),
        ApiResponse::ErrorStatus => Ok(PointerAction::ReportNoMatch),
        ApiResponse::ParseFailed => Ok(PointerAction::ReportNoMatch),
        ApiResponse::Parsed(p) => {
            if p.match_id == *previous_match_id {
                Ok(PointerAction::ReportSameMatch(p.match_id))
            } else {
                Ok(PointerAction::FetchRoster(p.match_id))
            }
        },
    }
}

/// Decide what the roster response means. Here a failure of any kind is an
/// error to surface, distinct from "no match": the pointer already said a
/// match exists, so the caller should retry rather than stay silent.
pub fn classify_roster(resp: ApiResponse<CurrentGameMatch>) -> (r: Result<
    CurrentGameMatch,
    PollError,
>)
    ensures
        match resp {
            ApiResponse::SendFailed => r == Err::<CurrentGameMatch, PollError>(
                PollError::NetworkFailure,
            ),
            ApiResponse::ErrorStatus => r == Err::<CurrentGameMatch, PollError>(
                PollError::NetworkFailure,
            ),
            ApiResponse::ParseFailed => r == Err::<CurrentGameMatch, PollError>(
                PollError::DeserializationFailure,
            ),
            ApiResponse::Parsed(m) => r is Ok && r->Ok_0 == m,
        },
{
    match resp {
        ApiResponse::SendFailed => Err(PollError::NetworkFailure),
        ApiResponse::ErrorStatus => Err(PollError::NetworkFailure),
        ApiResponse::ParseFailed => Err(PollError::DeserializationFailure),
        ApiResponse::Parsed(m) => Ok(m),
    }
}

/// Index of the last dash strictly before `end`, or -1 if there is none.
pub open spec fn last_dash_before(s: Seq<char>, end: int) -> int
    decreases end,
{
    if end <= 0 {
        -1
    } else if s[end - 1] == '-' {
        end - 1
    } else {
        last_dash_before(s, end - 1)
    }
}

/// The game-pod segment between the last two dashes (from the start, if
/// there is only one dash): the server name. Empty when no dash occurs.
pub open spec fn server_of(s: Seq<char>) -> Seq<char> {
    let l = last_dash_before(s, s.len() as int);
    if l < 0 {
        Seq::empty()
    } else {
        s.subrange(last_dash_before(s, l) + 1, l)
    }
}

/// A region without dashes holds no dash.
proof fn lemma_last_dash_skip(s: Seq<char>, end: int, i: int)
    requires
        0 <= i <= end <= s.len(),
        forall|k: int| i <= k < end ==> s[k] != '-',
    ensures
        last_dash_before(s, end) == last_dash_before(s, i),
    decreases end - i,
{
    if i < end {
        lemma_last_dash_skip(s, end - 1, i);
    }
}

/// Position of the last dash strictly before `end`, scanning backwards.
fn rfind_dash(s: &str, end: usize) -> (r: Option<usize>)
    requires
        end <= s@.len(),
    ensures
        match r {
            Some(i) => i < end && last_dash_before(s@, end as int) == i,
            None => last_dash_before(s@, end as int) == -1,
        },
{
    let mut i: usize = end;
    while i > 0
        invariant
            i <= end <= s@.len(),
            forall|k: int| i <= k < end ==> s@[k] != '-',
        decreases i,
    {
        let c = s.get_char(i - 1);
        if c == '-' {
            proof {
                lemma_last_dash_skip(s@, end as int, i as int);
            }
            return Some(i - 1);
        }
        i -= 1;
    }
    proof {
        lemma_last_dash_skip(s@, end as int, 0);
    }
    None
}

/// Extract the server name from a game-pod identifier: the segment between
/// the last two dashes. With a single dash the leading segment is taken;
/// with no dash at all the result is empty.
pub fn extract_server(game_pod: &String) -> (r: String)
    ensures
        r@ == server_of(game_pod@),
{
    let s = game_pod.as_str();
    let len = s.unicode_len();
    match rfind_dash(s, len) {
        None => String::new(),
        Some(l) => {
            let from = match rfind_dash(s, l) {
                Some(p) => p + 1,
                None => 0,
            };
            let part = s.substring_char(from, l);
            part.to_owned()
        },
    }
}

/// The published snapshot of the match being tracked: its metadata and the
/// enriched roster, as last reconciled.
#[derive(Debug, Clone, Default)]
pub struct MatchHandler {
    pub match_id: String,
    pub game_type: String,
    pub map_path: String,
    pub game_mode: String,
    pub server: String,
    pub players: Vec<LoadedPlayer>,
}

impl MatchHandler {
    /// An empty snapshot: nothing tracked yet.
    pub fn new() -> (h: MatchHandler)
        ensures
            h.match_id@ == Seq::<char>::empty(),
            h.game_type@ == Seq::<char>::empty(),
            h.map_path@ == Seq::<char>::empty(),
            h.game_mode@ == Seq::<char>::empty(),
            h.server@ == Seq::<char>::empty(),
            h.players@.len() == 0,
    {
        MatchHandler {
            match_id: String::new(),
            game_type: String::new(),
            map_path: String::new(),
            game_mode: String::new(),
            server: String::new(),
            players: Vec::new(),
        }
    }

    /// Replace the snapshot with a freshly reconciled match: its id, map and
    /// mode, the server extracted from the game pod, and the enriched
    /// roster.
    pub fn apply_reconciled(
        &mut self,
        match_id: String,
        map_id: String,
        gamemode_id: String,
        game_pod: &String,
        players: Vec<LoadedPlayer>,
    )
        ensures
            final(self).match_id == match_id,
            final(self).map_path == map_id,
            final(self).game_mode == gamemode_id,
            final(self).server@ == server_of(game_pod@),
            final(self).players == players,
            final(self).game_type == old(self).game_type,
    {
        self.match_id = match_id;
        self.map_path = map_id;
        self.game_mode = gamemode_id;
        self.server = extract_server(game_pod);
        self.players = players;
    }
}

/// The players worth showing: those seen in strictly more than `min_times`
/// matches before.
pub open spec fn seen_more_than(min_times: int) -> spec_fn(crate::LoadedPlayerRec) -> bool {
    |q: crate::LoadedPlayerRec| q.times_played > min_times
}

/// Filter a roster snapshot down to the players seen strictly more than
/// `min_times` times before, keeping their order.
pub fn frequent_players(players: &Vec<LoadedPlayer>, min_times: i64) -> (v: Vec<LoadedPlayer>)
    ensures
        v@.map_values(|q: LoadedPlayer| q@) == players@.map_values(|q: LoadedPlayer| q@).filter(
            seen_more_than(min_times as int),
        ),
{
    broadcast use vstd::seq_lib::group_filter_ensures;

    let ghost all = players@.map_values(|q: LoadedPlayer| q@);
    let n = players.len();
    let mut v: Vec<LoadedPlayer> = Vec::new();
    let mut i: usize = 0;
    while i < n
        invariant
            n == players@.len(),
            i <= n,
            all == players@.map_values(|q: LoadedPlayer| q@),
            v@.map_values(|q: LoadedPlayer| q@) =~= all.take(i as int).filter(
                seen_more_than(min_times as int),
            ),
        decreases n - i,
    {
        let ghost prefix = all.take(i as int);
        let p = &players[i];
        if p.times_played > min_times {
            v.push(p.duplicate());
        }
        proof {
            assert(all.take(i + 1 as int) =~= prefix.push(all[i as int]));
            prefix.lemma_filter_push(all[i as int], seen_more_than(min_times as int));
        }
        i += 1;
    }
    proof {
        assert(all.take(n as int) =~= all);
    }
    v
}

} // verus!
