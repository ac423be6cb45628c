use match_tracker::auth::{get_auth_from_response, Authorization};
use match_tracker::converter::{Converter, VryImport, VryPlayerHistory};
use match_tracker::database::{
    get_user, get_user_match_history, get_user_name_history, HistoryStore,
};
use match_tracker::live_match::{ApiResponse, MatchHandler};
use match_tracker::poll_cycle::{PollCycle, PollState};
use match_tracker::pre_game::{Error, PreGame, PreGameId};
use match_tracker::name_service::NameService;
use match_tracker::presence::Presence;
use match_tracker::settings::Settings;
use match_tracker::TeamType;

#[test]
fn default_settings_match_the_documented_values() {
    let s = Settings::default();
    assert_eq!(s.auto_refresh, true);
    assert_eq!(s.wait_time, 15);
    assert_eq!(s.refresh_time, 10);
    assert_eq!(s.last_checked, 0);
}

#[test]
fn refresh_is_due_only_past_the_interval() {
    let mut s = Settings { auto_refresh: true, wait_time: 15, refresh_time: 10, last_checked: 100 };
    assert!(!s.refresh_due_at(110));
    assert_eq!(s.last_checked, 100);
    assert!(s.refresh_due_at(111));
    assert_eq!(s.last_checked, 111);
}

#[test]
fn a_clock_running_backwards_never_makes_a_refresh_due() {
    let mut s = Settings { auto_refresh: true, wait_time: 15, refresh_time: 10, last_checked: 100 };
    assert!(!s.refresh_due_at(50));
    assert_eq!(s.last_checked, 100);
}

#[test]
fn wait_is_due_only_past_the_wait_interval() {
    let mut s = Settings { auto_refresh: true, wait_time: 15, refresh_time: 10, last_checked: 100 };
    assert!(!s.wait_due_at(115));
    assert!(s.wait_due_at(116));
    assert_eq!(s.last_checked, 116);
}

#[test]
fn remaining_time_counts_down_and_clamps_at_zero() {
    let s = Settings { auto_refresh: true, wait_time: 15, refresh_time: 10, last_checked: 100 };
    assert_eq!(s.refresh_remaining_at(100), 10);
    assert_eq!(s.refresh_remaining_at(105), 5);
    assert_eq!(s.refresh_remaining_at(110), 0);
    assert_eq!(s.refresh_remaining_at(200), 0);
    assert_eq!(s.refresh_remaining_at(50), 10);
}

#[test]
fn clocked_entry_points_stay_within_their_bounds() {
    let mut s = Settings::default();
    let remaining = s.get_refresh_time();
    assert!(remaining <= s.refresh_time);
    let _ = s.can_refresh();
    assert_eq!(s.refresh_time, 10);
    let _ = s.can_wait();
    assert_eq!(s.wait_time, 15);
    let _ = s.time_now();
}

#[test]
fn poll_cycle_is_single_flight() {
    let settings = Settings { auto_refresh: true, wait_time: 15, refresh_time: 10, last_checked: 0 };
    let mut cycle = PollCycle::new(settings);
    assert_eq!(cycle.latest_match_id(), "");
    assert!(cycle.tick(11));
    assert_eq!(cycle.state, PollState::Polling);
    // No second poll may start while one is in flight.
    assert!(!cycle.tick(100));
    assert!(!cycle.tick(10_000));
    let mut handler = MatchHandler::new();
    handler.match_id = String::from("M1");
    cycle.apply_result(Some(handler));
    assert_eq!(cycle.state, PollState::Idle);
    assert_eq!(cycle.latest_match_id(), "M1");
    // The timer restarted when the poll began at 11.
    assert!(!cycle.tick(20));
    assert!(cycle.tick(22));
}

#[test]
fn failed_poll_keeps_the_last_good_snapshot() {
    let settings = Settings { auto_refresh: true, wait_time: 15, refresh_time: 10, last_checked: 0 };
    let mut cycle = PollCycle::new(settings);
    assert!(cycle.tick(11));
    let mut handler = MatchHandler::new();
    handler.match_id = String::from("M1");
    cycle.apply_result(Some(handler));
    assert!(cycle.tick(100));
    cycle.apply_result(None);
    assert_eq!(cycle.latest_match_id(), "M1");
}

#[test]
fn force_refresh_allows_an_immediate_poll() {
    let settings =
        Settings { auto_refresh: true, wait_time: 15, refresh_time: 10, last_checked: 1_000 };
    let mut cycle = PollCycle::new(settings);
    assert!(!cycle.tick(1_005));
    cycle.force_refresh();
    assert!(cycle.tick(1_005));
}

#[test]
fn auto_refresh_off_never_polls() {
    let settings =
        Settings { auto_refresh: false, wait_time: 15, refresh_time: 10, last_checked: 0 };
    let mut cycle = PollCycle::new(settings);
    assert!(!cycle.tick(1_000_000));
    assert_eq!(cycle.state, PollState::Idle);
}

#[test]
fn pre_game_pointer_classification_keeps_the_taxonomy() {
    let parsed = ApiResponse::Parsed(PreGameId { match_id: String::from("PG1") });
    assert_eq!(PreGameId::classify_id_response(parsed).unwrap(), "PG1");
    let send_failed: ApiResponse<PreGameId> = ApiResponse::SendFailed;
    assert_eq!(PreGameId::classify_id_response(send_failed).unwrap_err(), Error::RiotError);
    let parse_failed: ApiResponse<PreGameId> = ApiResponse::ParseFailed;
    assert_eq!(PreGameId::classify_id_response(parse_failed).unwrap_err(), Error::NotPreGame);
    let error_status: ApiResponse<PreGameId> = ApiResponse::ErrorStatus;
    assert_eq!(PreGameId::classify_id_response(error_status).unwrap_err(), Error::Unknown);
}

#[test]
fn pre_game_players_come_from_the_resolved_batch() {
    let names = vec![
        NameService {
            uuid: String::from("A"),
            game_name: String::from("Alice"),
            tag_line: String::from("EU1"),
        },
        NameService {
            uuid: String::from("B"),
            game_name: String::from("Bob"),
            tag_line: String::from("EU2"),
        },
    ];
    let players =
        PreGame::get_players(&names, &String::from("PG1"), &String::from("PG0")).unwrap();
    assert_eq!(players.len(), 2);
    assert_eq!(players[0].uuid, "A");
    assert_eq!(players[0].name, "Alice");
    assert!(matches!(players[0].team, TeamType::Ally));
    assert!(players[0].match_history.is_empty());
    assert!(players[0].name_history.is_empty());
    assert_eq!(players[0].times_played, 0);
    assert_eq!(players[0].agent_id, "0");
    assert_eq!(players[1].uuid, "B");
}

#[test]
fn pre_game_same_match_is_not_pre_game() {
    let names: Vec<NameService> = Vec::new();
    let err = PreGame::get_players(&names, &String::from("PG1"), &String::from("PG1"))
        .unwrap_err();
    assert_eq!(err, Error::NotPreGame);
}

#[test]
fn auth_tokens_come_only_from_a_parsed_body() {
    let parsed = ApiResponse::Parsed(Authorization {
        access_token: String::from("acc"),
        token: String::from("ent"),
    });
    let pair = get_auth_from_response(parsed).unwrap();
    assert_eq!(pair.0, "ent");
    assert_eq!(pair.1, "acc");
    let failed: ApiResponse<Authorization> = ApiResponse::SendFailed;
    assert!(get_auth_from_response(failed).is_none());
}

#[test]
fn presence_handle_builds() {
    let _ = Presence::new();
}

#[test]
fn import_counts_fresh_and_duplicate_rows() {
    let mut store = HistoryStore::new();
    let entries = vec![VryImport {
        uuid: String::from("p1"),
        history: vec![
            VryPlayerHistory {
                name: String::from("Alice#EU1"),
                agent: String::from("jett"),
                map: String::from("Ascent"),
                match_id: String::from("m1"),
                time: 100,
            },
            VryPlayerHistory {
                name: String::from("Alice#EU1"),
                agent: String::from("jett"),
                map: String::from("Ascent"),
                match_id: String::from("m1"),
                time: 150,
            },
            VryPlayerHistory {
                name: String::from("Alicia#EU1#extra"),
                agent: String::from("sage"),
                map: String::from("Bind"),
                match_id: String::from("m2"),
                time: 200,
            },
        ],
    }];
    let counts = Converter::convert_vry_history(&mut store, &entries, 999);
    assert_eq!(counts.2, 3);
    assert_eq!(counts.0, 2);
    assert_eq!(counts.1, 1);
    let matches = get_user_match_history(&store, String::from("p1")).unwrap();
    assert_eq!(matches.len(), 2);
    assert_eq!(matches[0].match_id, "m1");
    assert_eq!(matches[1].match_id, "m2");
    // Names are deduplicated and split at their first two hash marks.
    let names = get_user_name_history(&store, String::from("p1")).unwrap();
    assert_eq!(names.len(), 2);
    assert_eq!(names[0].name, "Alice");
    assert_eq!(names[0].tag, "EU1");
    assert_eq!(names[1].name, "Alicia");
    assert_eq!(names[1].tag, "EU1");
    // The imported summary counts every row, stamped with the last epoch.
    let summary = get_user(&store, String::from("p1")).unwrap();
    assert_eq!(summary.times_played, 3);
    assert_eq!(summary.last_played, 200);
}

#[test]
fn import_skips_names_without_a_hash_mark_and_known_players() {
    let mut store = HistoryStore::new();
    match_tracker::database::add_user_full(&mut store, String::from("p2"), 42, 7).unwrap();
    let entries = vec![VryImport {
        uuid: String::from("p2"),
        history: vec![VryPlayerHistory {
            name: String::from("NoTagHere"),
            agent: String::from("omen"),
            map: String::from("Haven"),
            match_id: String::from("m3"),
            time: 300,
        }],
    }];
    let counts = Converter::convert_vry_history(&mut store, &entries, 999);
    assert_eq!(counts, (1, 0, 1));
    // The malformed name recorded nothing.
    assert!(get_user_name_history(&store, String::from("p2")).is_err());
    // The existing summary stayed as it was.
    let summary = get_user(&store, String::from("p2")).unwrap();
    assert_eq!(summary.times_played, 42);
    assert_eq!(summary.last_played, 7);
}

#[test]
fn duplicate_keeps_the_whole_snapshot() {
    let mut store = HistoryStore::new();
    match_tracker::database::add_new_match(
        &mut store,
        String::from("A"),
        String::from("m1"),
        String::from("map"),
        String::from("mode"),
        String::from("agent"),
        false,
        10,
    )
    .unwrap();
    let history = get_user_match_history(&store, String::from("A")).unwrap();
    let player = match_tracker::LoadedPlayer {
        uuid: String::from("A"),
        name: String::from("Alice"),
        tag: String::from("EU1"),
        team: TeamType::Ally,
        match_history: history,
        name_history: Vec::new(),
        times_played: 1,
        last_played: 10,
        agent_id: String::from("agent"),
        incognito: false,
    };
    let copy = player.duplicate();
    assert_eq!(copy.uuid, player.uuid);
    assert_eq!(copy.name, player.name);
    assert_eq!(copy.match_history.len(), 1);
    assert_eq!(copy.match_history[0].match_id, "m1");
}
