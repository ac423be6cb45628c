//! Match-detection and player-history correlation engine.
//!
//! The library tracks players encountered in live multiplayer matches: it
//! classifies poll responses from a session-scoped game-client API, resolves
//! roster entries against a batch identity lookup, and reconciles each player
//! against a persistent history store (times seen, name history, match
//! history) without ever duplicating records. Network and storage edges live
//! outside the library; everything here works on plain values and is verified.

pub mod auth;
pub mod converter;
pub mod database;
pub mod live_match;
pub mod loader;
pub mod name_service;
pub mod poll_cycle;
pub mod pre_game;
pub mod presence;
pub mod reconcile;
pub mod settings;

use vstd::prelude::*;

use crate::database::{MatchRec, NameRec};

verus! {

/// Side a roster entry is on, relative to the observing account.
#[derive(Debug, Clone, Copy, PartialEq, Eq, Structural)]
pub enum TeamType {
    Ally,
    Enemy,
}

/// Per-session credentials and routing facts, supplied by an external
/// authentication collaborator. Immutable for the lifetime of one session.
#[derive(Debug, Clone, Default)]
pub struct SessionContext {
    pub region: String,
    pub shard: String,
    /// The observing account's own stable player id.
    pub puuid: String,
    pub access_token: String,
    pub token: String,
    pub client_version: String,
}

/// A roster entry enriched with the player's historical statistics: the only
/// artifact handed to the consumer. It owns copies of the underlying
/// records, so it stays valid after later polls rewrite the store.
#[derive(Debug, Clone)]
pub struct LoadedPlayer {
    pub uuid: String,
    pub name: String,
    pub tag: String,
    pub team: TeamType,
    pub match_history: Vec<database::MatchHistory>,
    pub name_history: Vec<database::NameHistory>,
    pub times_played: i64,
    pub last_played: i64,
    pub agent_id: String,
    pub incognito: bool,
}

/// Mathematical model of an enriched roster entry.
#[verifier::ext_equal]
pub ghost struct LoadedPlayerRec {
    pub uuid: Seq<char>,
    pub name: Seq<char>,
    pub tag: Seq<char>,
    pub team: TeamType,
    pub match_history: Seq<MatchRec>,
    pub name_history: Seq<NameRec>,
    pub times_played: int,
    pub last_played: int,
    pub agent_id: Seq<char>,
    pub incognito: bool,
}

impl LoadedPlayer {
    /// An owned copy, equal to the original in the model: the consumer can
    /// keep it while the next poll cycle rewrites the working state.
    pub fn duplicate(&self) -> (r: LoadedPlayer)
        ensures
            r@ == self@,
    {
        let mut match_history: Vec<database::MatchHistory> = Vec::new();
        let mut i: usize = 0;
        let n = self.match_history.len();
        while i < n
            invariant
                n == self.match_history@.len(),
                i <= n,
                match_history@.len() == i,
                forall|k: int|
                    0 <= k < i ==> (#[trigger] match_history@[k])@ == self.match_history@[k]@,
            decreases n - i,
        {
            match_history.push(database::copy_match(&self.match_history[i]));
            i += 1;
        }
        let mut name_history: Vec<database::NameHistory> = Vec::new();
        let mut j: usize = 0;
        let m = self.name_history.len();
        while j < m
            invariant
                m == self.name_history@.len(),
                j <= m,
                name_history@.len() == j,
                forall|k: int|
                    0 <= k < j ==> (#[trigger] name_history@[k])@ == self.name_history@[k]@,
            decreases m - j,
        {
            name_history.push(database::copy_name(&self.name_history[j]));
            j += 1;
        }
        let r = LoadedPlayer {
            uuid: self.uuid.clone(),
            name: self.name.clone(),
            tag: self.tag.clone(),
            team: self.team,
            match_history: match_history,
            name_history: name_history,
            times_played: self.times_played,
            last_played: self.last_played,
            agent_id: self.agent_id.clone(),
            incognito: self.incognito,
        };
        proof {
            assert(r@.match_history =~= self@.match_history);
            assert(r@.name_history =~= self@.name_history);
            assert(r@ =~= self@);
        }
        r
    }
}

impl View for LoadedPlayer {
    type V = LoadedPlayerRec;

    open spec fn view(&self) -> LoadedPlayerRec {
        LoadedPlayerRec {
            uuid: self.uuid@,
            name: self.name@,
            tag: self.tag@,
            team: self.team,
            match_history: self.match_history@.map_values(|m: database::MatchHistory| m@),
            name_history: self.name_history@.map_values(|n: database::NameHistory| n@),
            times_played: self.times_played as int,
            last_played: self.last_played as int,
            agent_id: self.agent_id@,
            incognito: self.incognito,
        }
    }
}

} // verus!
