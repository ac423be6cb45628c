use match_tracker::database::{
    add_new_match, add_new_name, add_user_full, get_user, get_user_match_history,
    get_user_name_history, touch_summary, update_user, HistoryStore,
};

#[test]
fn record_match_twice_keeps_one_record() {
    let mut store = HistoryStore::new();
    let first = add_new_match(
        &mut store,
        String::from("p1"),
        String::from("m1"),
        String::from("map1"),
        String::from("mode1"),
        String::from("agent1"),
        true,
        1000,
    );
    assert!(first.is_ok());
    let second = add_new_match(
        &mut store,
        String::from("p1"),
        String::from("m1"),
        String::from("map1"),
        String::from("mode1"),
        String::from("agent1"),
        true,
        1000,
    );
    assert!(second.is_err());
    let history = get_user_match_history(&store, String::from("p1")).unwrap();
    assert_eq!(history.len(), 1);
    assert_eq!(history[0].match_id, "m1");
    assert_eq!(history[0].map_id, "map1");
    assert_eq!(history[0].gamemode_id.as_deref(), Some("mode1"));
    assert_eq!(history[0].agent_id, "agent1");
    assert_eq!(history[0].enemy, Some(true));
    assert_eq!(history[0].match_time, 1000);
}

#[test]
fn record_same_match_for_two_players_keeps_both() {
    let mut store = HistoryStore::new();
    let a = add_new_match(
        &mut store,
        String::from("p1"),
        String::from("m1"),
        String::from("map"),
        String::from("mode"),
        String::from("a"),
        false,
        5,
    );
    let b = add_new_match(
        &mut store,
        String::from("p2"),
        String::from("m1"),
        String::from("map"),
        String::from("mode"),
        String::from("b"),
        true,
        5,
    );
    assert!(a.is_ok());
    assert!(b.is_ok());
    assert_eq!(get_user_match_history(&store, String::from("p1")).unwrap().len(), 1);
    assert_eq!(get_user_match_history(&store, String::from("p2")).unwrap().len(), 1);
}

#[test]
fn record_name_twice_keeps_one_record() {
    let mut store = HistoryStore::new();
    let first = add_new_name(
        &mut store,
        String::from("p1"),
        String::from("Alice"),
        String::from("EU1"),
        42,
    );
    assert!(first.is_ok());
    let second = add_new_name(
        &mut store,
        String::from("p1"),
        String::from("Alice"),
        String::from("EU1"),
        43,
    );
    assert!(second.is_err());
    let names = get_user_name_history(&store, String::from("p1")).unwrap();
    assert_eq!(names.len(), 1);
    assert_eq!(names[0].name, "Alice");
    assert_eq!(names[0].tag, "EU1");
    assert_eq!(names[0].name_time, Some(42));
}

#[test]
fn changed_name_appends_in_order() {
    let mut store = HistoryStore::new();
    add_new_name(&mut store, String::from("p1"), String::from("Alice"), String::from("EU1"), 1)
        .unwrap();
    add_new_name(&mut store, String::from("p1"), String::from("Alicia"), String::from("EU1"), 2)
        .unwrap();
    // Same name under a different tag is a distinct sighting.
    add_new_name(&mut store, String::from("p1"), String::from("Alice"), String::from("EU2"), 3)
        .unwrap();
    let names = get_user_name_history(&store, String::from("p1")).unwrap();
    assert_eq!(names.len(), 3);
    assert_eq!(names[0].name, "Alice");
    assert_eq!(names[1].name, "Alicia");
    assert_eq!(names[2].tag, "EU2");
}

#[test]
fn touch_summary_counts_every_sighting() {
    let mut store = HistoryStore::new();
    assert!(get_user(&store, String::from("p1")).is_err());
    let s1 = touch_summary(&mut store, &String::from("p1"), 100);
    assert_eq!(s1.times_played, 1);
    assert_eq!(s1.last_played, 100);
    let s2 = touch_summary(&mut store, &String::from("p1"), 200);
    assert_eq!(s2.times_played, 2);
    assert_eq!(s2.last_played, 200);
    let s3 = touch_summary(&mut store, &String::from("p1"), 300);
    assert_eq!(s3.times_played, 3);
    assert_eq!(s3.last_played, 300);
    let read = get_user(&store, String::from("p1")).unwrap();
    assert_eq!(read.times_played, 3);
    assert_eq!(read.last_played, 300);
}

#[test]
fn update_user_touches_like_touch_summary() {
    let mut store = HistoryStore::new();
    update_user(&mut store, String::from("p9"), 77).unwrap();
    let read = get_user(&store, String::from("p9")).unwrap();
    assert_eq!(read.times_played, 1);
    assert_eq!(read.last_played, 77);
}

#[test]
fn add_user_full_rejects_known_player() {
    let mut store = HistoryStore::new();
    assert!(add_user_full(&mut store, String::from("p1"), 7, 900).is_ok());
    assert!(add_user_full(&mut store, String::from("p1"), 9, 901).is_err());
    let read = get_user(&store, String::from("p1")).unwrap();
    assert_eq!(read.times_played, 7);
    assert_eq!(read.last_played, 900);
}

#[test]
fn histories_of_unknown_player_are_absent() {
    let store = HistoryStore::new();
    assert!(get_user_name_history(&store, String::from("nobody")).is_err());
    assert!(get_user_match_history(&store, String::from("nobody")).is_err());
    assert!(get_user(&store, String::from("nobody")).is_err());
}
