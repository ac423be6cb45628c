use match_tracker::database::{get_user, get_user_match_history, HistoryStore};
use match_tracker::live_match::{
    classify_pointer, classify_roster, extract_server, frequent_players, ApiResponse,
    CurrentGameMatch, CurrentGamePlayer, MatchHandler, MatchOutcome, Player, PlayerIdentity,
    PointerAction, PollError,
};
use match_tracker::name_service::{find_name, NameService};
use match_tracker::reconcile::{reconcile, ReconcileError, ReconcileOutcome};
use match_tracker::{SessionContext, TeamType};

fn entry(uuid: &str, team: &str, agent: &str) -> Player {
    Player {
        team_id: String::from(team),
        agent_id: String::from(agent),
        player_identity: PlayerIdentity {
            uuid: String::from(uuid),
            card_id: String::new(),
            title_id: String::new(),
            level: 10,
            incognito: false,
            hide_level: false,
        },
    }
}

fn identity(uuid: &str, name: &str, tag: &str) -> NameService {
    NameService {
        uuid: String::from(uuid),
        game_name: String::from(name),
        tag_line: String::from(tag),
    }
}

fn session(puuid: &str) -> SessionContext {
    SessionContext {
        region: String::from("eu"),
        shard: String::from("eu"),
        puuid: String::from(puuid),
        access_token: String::new(),
        token: String::new(),
        client_version: String::new(),
    }
}

fn roster(match_id: &str, players: Vec<Player>) -> CurrentGameMatch {
    CurrentGameMatch {
        match_id: String::from(match_id),
        map_id: String::from("map-x"),
        gamemode_id: String::from("mode-y"),
        game_pod: String::from("pod.aws-mes1-prod-gp-1"),
        players,
    }
}

#[test]
fn new_match_scenario_enriches_both_players() {
    let mut store = HistoryStore::new();
    let outcome = MatchOutcome::NewMatch(roster(
        "M1",
        vec![entry("A", "Blue", "agent-a"), entry("B", "Red", "agent-b")],
    ));
    let names = vec![identity("A", "Alice", "EU1"), identity("B", "Bob", "EU2")];
    let result = reconcile(&mut store, &session("A"), &String::new(), outcome, Some(names), 500)
        .unwrap();
    match result {
        ReconcileOutcome::Reconciled(players, new_match_id) => {
            assert_eq!(new_match_id, "M1");
            assert_eq!(players.len(), 2);
            assert_eq!(players[0].uuid, "A");
            assert_eq!(players[0].name, "Alice");
            assert_eq!(players[0].tag, "EU1");
            assert!(matches!(players[0].team, TeamType::Ally));
            assert_eq!(players[1].uuid, "B");
            assert_eq!(players[1].name, "Bob");
            assert!(matches!(players[1].team, TeamType::Enemy));
            // The newly recorded match appears exactly once in each snapshot.
            assert_eq!(players[0].match_history.len(), 1);
            assert_eq!(players[1].match_history.len(), 1);
            assert_eq!(players[0].match_history[0].enemy, Some(false));
            assert_eq!(players[1].match_history[0].enemy, Some(true));
        },
        ReconcileOutcome::NotCurrentlyRelevant => panic!("expected a reconciled roster"),
    }
    // One durable record per (player, match).
    assert_eq!(get_user_match_history(&store, String::from("A")).unwrap().len(), 1);
    assert_eq!(get_user_match_history(&store, String::from("B")).unwrap().len(), 1);
}

#[test]
fn one_unresolved_identity_drops_only_that_player() {
    let mut store = HistoryStore::new();
    let outcome = MatchOutcome::NewMatch(roster(
        "M2",
        vec![
            entry("A", "Blue", "a1"),
            entry("B", "Blue", "a2"),
            entry("C", "Red", "a3"),
            entry("D", "Red", "a4"),
            entry("E", "Red", "a5"),
        ],
    ));
    // E is missing from the batch: best-effort response.
    let names = vec![
        identity("A", "Alice", "EU1"),
        identity("B", "Bea", "EU1"),
        identity("C", "Cid", "EU2"),
        identity("D", "Dot", "EU2"),
    ];
    let result = reconcile(&mut store, &session("A"), &String::new(), outcome, Some(names), 600)
        .unwrap();
    match result {
        ReconcileOutcome::Reconciled(players, _) => {
            assert_eq!(players.len(), 4);
            assert!(players.iter().all(|p| p.uuid != "E"));
        },
        ReconcileOutcome::NotCurrentlyRelevant => panic!("expected a reconciled roster"),
    }
    assert!(get_user(&store, String::from("E")).is_err());
}

#[test]
fn enemy_flag_follows_observer_team() {
    let mut store = HistoryStore::new();
    let outcome = MatchOutcome::NewMatch(roster(
        "M3",
        vec![entry("O", "Blue", "a"), entry("X", "Blue", "b"), entry("Y", "Red", "c")],
    ));
    let names = vec![
        identity("O", "Obs", "T1"),
        identity("X", "Mate", "T2"),
        identity("Y", "Rival", "T3"),
    ];
    let result = reconcile(&mut store, &session("O"), &String::new(), outcome, Some(names), 700)
        .unwrap();
    match result {
        ReconcileOutcome::Reconciled(players, _) => {
            for p in &players {
                let is_enemy = p.match_history[0].enemy.unwrap();
                assert_eq!(is_enemy, p.uuid == "Y");
                assert_eq!(is_enemy, matches!(p.team, TeamType::Enemy));
            }
        },
        ReconcileOutcome::NotCurrentlyRelevant => panic!("expected a reconciled roster"),
    }
}

#[test]
fn same_match_pointer_short_circuits() {
    let prev = String::from("M1");
    let resp = ApiResponse::Parsed(CurrentGamePlayer { match_id: String::from("M1") });
    match classify_pointer(&prev, resp).unwrap() {
        PointerAction::ReportSameMatch(id) => assert_eq!(id, "M1"),
        other => panic!("expected a same-match report, got {:?}", other),
    }
}

#[test]
fn new_pointer_asks_for_the_roster() {
    let prev = String::from("M1");
    let resp = ApiResponse::Parsed(CurrentGamePlayer { match_id: String::from("M2") });
    match classify_pointer(&prev, resp).unwrap() {
        PointerAction::FetchRoster(id) => assert_eq!(id, "M2"),
        other => panic!("expected a roster fetch, got {:?}", other),
    }
}

#[test]
fn pointer_failures_are_not_no_match() {
    let prev = String::new();
    let send_failed: ApiResponse<CurrentGamePlayer> = ApiResponse::SendFailed;
    assert_eq!(classify_pointer(&prev, send_failed).unwrap_err(), PollError::NetworkFailure);
    let error_status: ApiResponse<CurrentGamePlayer> = ApiResponse::ErrorStatus;
    assert!(matches!(classify_pointer(&prev, error_status).unwrap(), PointerAction::ReportNoMatch));
    let parse_failed: ApiResponse<CurrentGamePlayer> = ApiResponse::ParseFailed;
    assert!(matches!(classify_pointer(&prev, parse_failed).unwrap(), PointerAction::ReportNoMatch));
}

#[test]
fn roster_failures_keep_their_kind() {
    let send_failed: ApiResponse<CurrentGameMatch> = ApiResponse::SendFailed;
    assert_eq!(classify_roster(send_failed).unwrap_err(), PollError::NetworkFailure);
    let parse_failed: ApiResponse<CurrentGameMatch> = ApiResponse::ParseFailed;
    assert_eq!(classify_roster(parse_failed).unwrap_err(), PollError::DeserializationFailure);
    let parsed = ApiResponse::Parsed(roster("M9", vec![]));
    assert_eq!(classify_roster(parsed).unwrap().match_id, "M9");
}

#[test]
fn same_match_outcome_writes_nothing() {
    let mut store = HistoryStore::new();
    let outcome = MatchOutcome::SameMatch(String::from("M1"));
    let result = reconcile(
        &mut store,
        &session("A"),
        &String::from("M1"),
        outcome,
        None,
        800,
    )
    .unwrap();
    assert!(matches!(result, ReconcileOutcome::NotCurrentlyRelevant));
    assert!(get_user(&store, String::from("A")).is_err());
}

#[test]
fn roster_with_previous_id_writes_nothing() {
    let mut store = HistoryStore::new();
    let outcome = MatchOutcome::NewMatch(roster("M1", vec![entry("A", "Blue", "a")]));
    let names = vec![identity("A", "Alice", "EU1")];
    let result = reconcile(
        &mut store,
        &session("A"),
        &String::from("M1"),
        outcome,
        Some(names),
        900,
    )
    .unwrap();
    assert!(matches!(result, ReconcileOutcome::NotCurrentlyRelevant));
    assert!(get_user(&store, String::from("A")).is_err());
}

#[test]
fn missing_identity_batch_is_an_error() {
    let mut store = HistoryStore::new();
    let outcome = MatchOutcome::NewMatch(roster("M4", vec![entry("A", "Blue", "a")]));
    let err = reconcile(&mut store, &session("A"), &String::new(), outcome, None, 1000)
        .unwrap_err();
    assert_eq!(err, ReconcileError::IdentityResolution);
}

#[test]
fn observer_missing_from_roster_is_an_error() {
    let mut store = HistoryStore::new();
    let outcome = MatchOutcome::NewMatch(roster("M5", vec![entry("B", "Red", "b")]));
    let names = vec![identity("B", "Bob", "EU2")];
    let err = reconcile(&mut store, &session("A"), &String::new(), outcome, Some(names), 1100)
        .unwrap_err();
    assert_eq!(err, ReconcileError::ObserverNotInRoster);
    assert!(get_user(&store, String::from("B")).is_err());
}

#[test]
fn repeated_polls_of_one_match_stay_idempotent() {
    let mut store = HistoryStore::new();
    for _ in 0..3 {
        // The poll loop may miss the short-circuit (for example after a
        // restart): reconciling the same roster again must not duplicate.
        let outcome =
            MatchOutcome::NewMatch(roster("M6", vec![entry("A", "Blue", "a"), entry("B", "Red", "b")]));
        let names = vec![identity("A", "Alice", "EU1"), identity("B", "Bob", "EU2")];
        reconcile(&mut store, &session("A"), &String::new(), outcome, Some(names), 1200).unwrap();
    }
    assert_eq!(get_user_match_history(&store, String::from("A")).unwrap().len(), 1);
    let summary = get_user(&store, String::from("A")).unwrap();
    assert_eq!(summary.times_played, 3);
}

#[test]
fn snapshot_merges_prior_history_with_new_record() {
    let mut store = HistoryStore::new();
    match_tracker::database::add_user_full(&mut store, String::from("A"), 5, 50).unwrap();
    match_tracker::database::add_new_match(
        &mut store,
        String::from("A"),
        String::from("M0"),
        String::from("old-map"),
        String::from("old-mode"),
        String::from("old-agent"),
        true,
        40,
    )
    .unwrap();
    let outcome = MatchOutcome::NewMatch(roster("M7", vec![entry("A", "Blue", "a")]));
    let names = vec![identity("A", "Alice", "EU1")];
    let result = reconcile(&mut store, &session("A"), &String::new(), outcome, Some(names), 1300)
        .unwrap();
    match result {
        ReconcileOutcome::Reconciled(players, _) => {
            assert_eq!(players.len(), 1);
            // Pre-touch summary is what the consumer sees for this cycle.
            assert_eq!(players[0].times_played, 5);
            assert_eq!(players[0].last_played, 50);
            // Old record plus the one just written: each exactly once.
            assert_eq!(players[0].match_history.len(), 2);
            assert_eq!(players[0].match_history[0].match_id, "M0");
            assert_eq!(players[0].match_history[1].match_id, "M7");
        },
        ReconcileOutcome::NotCurrentlyRelevant => panic!("expected a reconciled roster"),
    }
    // The durable summary moved past the snapshot.
    assert_eq!(get_user(&store, String::from("A")).unwrap().times_played, 6);
}

#[test]
fn find_name_picks_the_first_entry() {
    let names = vec![
        identity("A", "First", "T1"),
        identity("B", "Other", "T2"),
        identity("A", "Second", "T3"),
    ];
    assert_eq!(find_name(&names, &String::from("A")), Some(0));
    assert_eq!(find_name(&names, &String::from("B")), Some(1));
    assert_eq!(find_name(&names, &String::from("C")), None);
}

#[test]
fn server_name_sits_between_the_last_two_dashes() {
    assert_eq!(extract_server(&String::from("pod.aws-mes1-prod-gp-1")), "gp");
    assert_eq!(extract_server(&String::from("a-b-c")), "b");
    assert_eq!(extract_server(&String::from("x-y")), "x");
    assert_eq!(extract_server(&String::from("nodashes")), "");
    assert_eq!(extract_server(&String::new()), "");
}

#[test]
fn snapshot_applies_reconciled_match() {
    let mut handler = MatchHandler::new();
    assert_eq!(handler.match_id, "");
    handler.apply_reconciled(
        String::from("M8"),
        String::from("map-z"),
        String::from("mode-z"),
        &String::from("pod-eu-gp-7"),
        Vec::new(),
    );
    assert_eq!(handler.match_id, "M8");
    assert_eq!(handler.map_path, "map-z");
    assert_eq!(handler.game_mode, "mode-z");
    assert_eq!(handler.server, "gp");
    assert!(handler.players.is_empty());
}

#[test]
fn frequent_players_keeps_only_the_often_seen() {
    let mut store = HistoryStore::new();
    let outcome = MatchOutcome::NewMatch(roster(
        "M9",
        vec![entry("A", "Blue", "a"), entry("B", "Red", "b")],
    ));
    let names = vec![identity("A", "Alice", "EU1"), identity("B", "Bob", "EU2")];
    match_tracker::database::add_user_full(&mut store, String::from("B"), 9, 10).unwrap();
    let result = reconcile(&mut store, &session("A"), &String::new(), outcome, Some(names), 20)
        .unwrap();
    match result {
        ReconcileOutcome::Reconciled(players, _) => {
            let shown = frequent_players(&players, 2);
            assert_eq!(shown.len(), 1);
            assert_eq!(shown[0].uuid, "B");
            assert_eq!(shown[0].times_played, 9);
        },
        ReconcileOutcome::NotCurrentlyRelevant => panic!("expected a reconciled roster"),
    }
}
