//! The pre-game phase: the same underlying match exposed through a different
//! endpoint shape before the match goes live.
//!
//! The pre-game roster lists only the ally team, and players may not have
//! locked an agent yet, so entries are built with empty histories, an ally
//! team side and a placeholder agent. The HTTP requests live outside the
//! library; the classification of their responses and the roster-building
//! are verified here.

use vstd::prelude::*;

use crate::live_match::ApiResponse;
use crate::name_service::{NameService, NameSvcRec};
use crate::{LoadedPlayer, LoadedPlayerRec, TeamType};

verus! {

/// The pre-game match pointer: the id of the match being set up.
#[derive(Debug, Clone, Default)]
pub struct PreGameId {
    pub match_id: String,
}

/// A pre-game lobby: the observing account's team.
#[derive(Debug, Clone, Default)]
pub struct PreGame {
    pub ally_team: Team,
}

/// The ally team of a pre-game lobby.
#[derive(Debug, Clone, Default)]
pub struct Team {
    pub players: Vec<Player>,
}

/// One pre-game roster entry.
#[derive(Debug, Clone, Default)]
pub struct Player {
    pub uuid: String,
    pub agent_id: String,
    pub selection_state: String,
    pub rank: u8,
    pub player_identity: PlayerIdentity,
}

/// Identity block of a pre-game roster entry.
#[derive(Debug, Clone, Default)]
pub struct PlayerIdentity {
    pub level: u16,
    pub incognito: bool,
    pub hide_level: bool,
}

/// Why a pre-game lookup produced nothing.
#[derive(Debug, Clone, Copy, PartialEq, Eq, Structural)]
pub enum Error {
    /// Not currently in the pre-game phase (or the same match again).
    NotPreGame,
    /// The HTTP client could not be built.
    ClientError,
    /// The service could not be reached.
    RiotError,
    /// The service answered, but not with a pre-game match.
    Unknown,
}

impl PreGameId {
    /// Decide what the pre-game pointer response means: an unreachable
    /// service is a transient error, an unparsable success body means the
    /// account is not in pre-game, and a non-success status is unexpected.
    pub fn classify_id_response(resp: ApiResponse<PreGameId>) -> (r: Result<String, Error>)
        ensures
            match resp {
                ApiResponse::SendFailed => r == Err::<String, Error>(Error::RiotError),
                ApiResponse::ErrorStatus => r == Err::<String, Error>(Error::Unknown),
                ApiResponse::ParseFailed => r == Err::<String, Error>(Error::NotPreGame),
                ApiResponse::Parsed(p) => r is Ok && r->Ok_0@ == p.match_id@,
            },
    {
        match resp {
            ApiResponse::SendFailed => Err(Error::RiotError),
            ApiResponse::ErrorStatus => Err(Error::Unknown),
            ApiResponse::ParseFailed => Err(Error::NotPreGame),
            ApiResponse::Parsed(p) => Ok(p.match_id),
        }
    }
}

/// An enriched entry for a pre-game ally: no history yet, ally side, and a
/// placeholder agent, since agents may not be locked before the match
/// starts.
pub open spec fn spec_pre_game_player(n: NameSvcRec) -> LoadedPlayerRec {
    LoadedPlayerRec {
        uuid: n.uuid,
        name: n.game_name,
        tag: n.tag_line,
        team: TeamType::Ally,
        match_history: Seq::empty(),
        name_history: Seq::empty(),
        times_played: 0,
        last_played: 0,
        agent_id: "0"@,
        incognito: false,
    }
}

impl PreGame {
    /// Decide what the pre-game lobby response means.
    pub fn classify_response(resp: ApiResponse<PreGame>) -> (r: Result<PreGame, Error>)
        ensures
            match resp {
                ApiResponse::SendFailed => r == Err::<PreGame, Error>(Error::RiotError),
                ApiResponse::ErrorStatus => r == Err::<PreGame, Error>(Error::Unknown),
                ApiResponse::ParseFailed => r == Err::<PreGame, Error>(Error::NotPreGame),
                ApiResponse::Parsed(g) => r is Ok && r->Ok_0 == g,
            },
    {
        match resp {
            ApiResponse::SendFailed => Err(Error::RiotError),
            ApiResponse::ErrorStatus => Err(Error::Unknown),
            ApiResponse::ParseFailed => Err(Error::NotPreGame),
            ApiResponse::Parsed(g) => Ok(g),
        }
    }

    /// Build the enriched entries for a pre-game lobby from its resolved
    /// identity batch, one per resolved name. A match id equal to the one
    /// already processed is reported as not-pre-game, so the same lobby is
    /// never processed twice.
    pub fn get_players(
        names: &Vec<NameService>,
        match_id: &String,
        prev_match_id: &String,
    ) -> (r: Result<Vec<LoadedPlayer>, Error>)
        ensures
            match_id@ == prev_match_id@ <==> r == Err::<Vec<LoadedPlayer>, Error>(
                Error::NotPreGame,
            ),
            match_id@ != prev_match_id@ ==> r is Ok && r->Ok_0@.map_values(|q: LoadedPlayer| q@)
                == names@.map_values(|n: NameService| n@).map_values(
                |n: NameSvcRec| spec_pre_game_player(n),
            ),
    {
        if *prev_match_id == *match_id {
            return Err(Error::NotPreGame);
        }
        let ghost target = names@.map_values(|n: NameService| n@).map_values(
            |n: NameSvcRec| spec_pre_game_player(n),
        );
        let n = names.len();
        let mut out: Vec<LoadedPlayer> = Vec::new();
        let mut i: usize = 0;
        while i < n
            invariant
                n == names@.len(),
                i <= n,
                target == names@.map_values(|n: NameService| n@).map_values(
                    |n: NameSvcRec| spec_pre_game_player(n),
                ),
                target.len() == n,
                out@.len() == i,
                forall|k: int| 0 <= k < i ==> (#[trigger] out@[k])@ == target[k],
            decreases n - i,
        {
            let nm = &names[i];
            let entry = LoadedPlayer {
                uuid: nm.uuid.clone(),
                name: nm.game_name.clone(),
                tag: nm.tag_line.clone(),
                team: TeamType::Ally,
                match_history: Vec::new(),
                name_history: Vec::new(),
                times_played: 0,
                last_played: 0,
                agent_id: String::from_str("0"),
                incognito: false,
            };
            proof {
                assert(entry@.match_history =~= Seq::<crate::database::MatchRec>::empty());
                assert(entry@.name_history =~= Seq::<crate::database::NameRec>::empty());
                assert(entry@ =~= target[i as int]);
            }
            out.push(entry);
            i += 1;
        }
        proof {
            assert(out@.map_values(|q: LoadedPlayer| q@) =~= target);
        }
        Ok(out)
    }
}

} // verus!
