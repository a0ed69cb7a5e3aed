use lcp::error::FetchError;
use lcp::steam::achievements::{
    collect_achievements, reports_no_stats, GameStats, PlayerAchievement, SchemaAchievement,
};
use lcp::steam::games::{
    build_game, header_url, icon_url, library_url, select_recent, store_url, Progress, RawGame,
};
use lcp::time::Timestamp;

fn player(name: &str, achieved: u32, unlock: Option<i64>) -> PlayerAchievement {
    PlayerAchievement { api_name: name.to_string(), achieved, unlock_time: unlock }
}

fn schema(name: &str) -> SchemaAchievement {
    SchemaAchievement {
        display_name: format!("{} shown", name),
        icon: format!("{}.png", name),
        description: if name == "b" { None } else { Some(format!("about {}", name)) },
        name: name.to_string(),
    }
}

fn raw(name: &str, appid: u32, played: i64) -> RawGame {
    RawGame {
        name: name.to_string(),
        appid,
        img_icon_url: String::from("hash"),
        rtime_last_played: played,
        playtime_forever: 60,
    }
}

#[test]
fn no_stats_answer_is_recognised() {
    assert!(reports_no_stats(
        r#"{"playerstats":{"error":"Requested app has no stats","success":false}}"#
    ));
    assert!(!reports_no_stats(r#"{"playerstats":{"achievements":[]}}"#));
    assert!(!reports_no_stats(""));
}

#[test]
fn achievements_are_joined_and_ordered() {
    let players = vec![
        player("a", 1, Some(100)),
        player("b", 0, None),
        player("c", 1, Some(300)),
        player("d", 1, Some(200)),
    ];
    let stats = GameStats { achievements: vec![schema("c"), schema("a"), schema("b")] };
    let out = collect_achievements(&players, &stats).expect("joined");
    let order: Vec<&str> = out.iter().map(|a| a.api_name.as_str()).collect();
    assert_eq!(order, vec!["b", "c", "a"]);
    assert!(!out[0].achieved);
    assert_eq!(out[0].unlock_time, None);
    assert_eq!(out[0].description, None);
    assert!(out[1].achieved);
    assert_eq!(out[1].icon, "c.png");
    assert_eq!(out[1].display_name, "c shown");
    assert_eq!(out[1].description, Some(String::from("about c")));
    assert_eq!(out[1].unlock_time, Some(Timestamp::from_parts(300, 0)));
    assert_eq!(out[2].unlock_time, Some(Timestamp::from_parts(100, 0)));
}

#[test]
fn equal_unlock_times_keep_player_order() {
    let players = vec![player("x", 1, Some(50)), player("y", 1, Some(50)), player("z", 1, Some(60))];
    let stats = GameStats { achievements: vec![schema("z"), schema("y"), schema("x")] };
    let out = collect_achievements(&players, &stats).expect("joined");
    let order: Vec<&str> = out.iter().map(|a| a.api_name.as_str()).collect();
    assert_eq!(order, vec!["z", "x", "y"]);
}

#[test]
fn achieved_only_when_reported_as_one() {
    let players = vec![player("a", 2, None)];
    let stats = GameStats { achievements: vec![schema("a")] };
    let out = collect_achievements(&players, &stats).expect("joined");
    assert!(!out[0].achieved);
}

#[test]
fn out_of_range_unlock_time_is_malformed() {
    let players = vec![player("a", 1, Some(i64::MAX))];
    let stats = GameStats { achievements: vec![schema("a")] };
    assert!(matches!(collect_achievements(&players, &stats), Err(FetchError::Malformed)));
    let unmatched = GameStats { achievements: vec![schema("b")] };
    let out = collect_achievements(&players, &unmatched).expect("nothing joined");
    assert!(out.is_empty());
}

#[test]
fn recent_games_are_latest_twenty() {
    let mut games = vec![];
    for i in 0..25u32 {
        games.push(raw(&format!("g{}", i), i, (i as i64 % 7) * 1000));
    }
    let recent = match select_recent(games) {
        Ok(v) => v,
        Err(_) => panic!("enough games"),
    };
    assert_eq!(recent.len(), 20);
    for w in recent.windows(2) {
        assert!(w[0].rtime_last_played >= w[1].rtime_last_played);
        if w[0].rtime_last_played == w[1].rtime_last_played {
            assert!(w[0].appid < w[1].appid);
        }
    }
    let first: Vec<u32> = recent.iter().take(4).map(|g| g.appid).collect();
    assert_eq!(first, vec![6, 13, 20, 5]);
}

#[test]
fn fewer_than_twenty_games_fail() {
    let games: Vec<RawGame> = (0..19u32).map(|i| raw("g", i, 0)).collect();
    assert!(matches!(select_recent(games), Err(FetchError::TooFewRecords)));
}

#[test]
fn game_urls() {
    assert_eq!(store_url(440), "https://store.steampowered.com/app/440/");
    assert_eq!(
        icon_url(440, "abc"),
        "https://media.steampowered.com/steamcommunity/public/images/apps/440/abc.jpg"
    );
    assert_eq!(
        header_url(440),
        "https://shared.akamai.steamstatic.com/store_item_assets/steam/apps/440/header.jpg"
    );
    assert_eq!(
        library_url(440),
        "https://shared.akamai.steamstatic.com/store_item_assets/steam/apps/440/library_600x900.jpg"
    );
}

#[test]
fn built_game_counts_completed_achievements() {
    let players = vec![player("a", 1, Some(100)), player("b", 0, None), player("c", 1, Some(5))];
    let stats = GameStats { achievements: vec![schema("a"), schema("b"), schema("c")] };
    let achievements = collect_achievements(&players, &stats).expect("joined");
    let g = match build_game(&raw("Portal", 400, 1_700_000_000), true, Some(achievements)) {
        Ok(g) => g,
        Err(_) => panic!("in range"),
    };
    assert_eq!(g.name, "Portal");
    assert_eq!(g.app_id, 400);
    assert_eq!(g.url, "https://store.steampowered.com/app/400/");
    assert_eq!(
        g.library_url,
        Some(String::from(
            "https://shared.akamai.steamstatic.com/store_item_assets/steam/apps/400/library_600x900.jpg"
        ))
    );
    assert_eq!(g.rtime_last_played, Timestamp::from_parts(1_700_000_000, 0));
    assert_eq!(g.achievement_progress, Some(Progress { completed: 2, total: 3 }));
    assert_eq!(g.achievements.as_ref().map(|a| a.len()), Some(3));
}

#[test]
fn built_game_without_achievements_or_library() {
    let g = match build_game(&raw("Quiet", 7, 0), false, None) {
        Ok(g) => g,
        Err(_) => panic!("in range"),
    };
    assert_eq!(g.library_url, None);
    assert_eq!(g.achievement_progress, None);
    assert_eq!(g.playtime_forever, 60);
}

#[test]
fn built_game_with_impossible_time_is_malformed() {
    assert!(matches!(build_game(&raw("Far", 7, i64::MIN), false, None), Err(FetchError::Malformed)));
}

#[test]
fn last_played_time_range_edges() {
    let ok = |secs: i64| build_game(&raw("Edge", 1, secs), false, None).is_ok();
    assert!(ok(-8_334_601_228_800));
    assert!(!ok(-8_334_601_228_801));
    assert!(ok(8_210_266_876_799));
    assert!(!ok(8_210_266_876_800));
}
