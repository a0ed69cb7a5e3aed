use lcp::error::FetchError;
use lcp::strava::activities::{take_recent, Activity, ActivityMap};
use lcp::strava::challenge::{answer_challenge, Parameters};
use lcp::strava::map::{asset_key, render_url, render_url_encoded, stale_asset_keys};
use lcp::time::Timestamp;

fn activity(id: u64) -> Activity {
    Activity {
        name: format!("ride {}", id),
        sport_type: String::from("Ride"),
        start_date: Timestamp::from_parts(1_700_000_000 + id as i64, 0),
        timezone: String::from("(GMT-05:00) America/New_York"),
        map: ActivityMap { summary_polyline: String::from("_p~iF~ps|U") },
        trainer: false,
        commute: false,
        private: false,
        average_speed: 5.5f32.to_bits(),
        max_speed: 12.0f32.to_bits(),
        average_temp: 20,
        average_cadence: 0,
        average_watts: 0,
        device_watts: false,
        average_heartrate: 0,
        total_elevation_gain: 100.0f32.to_bits(),
        moving_time: 3600,
        suffer_score: 0,
        pr_count: 1,
        distance: 20000.0f32.to_bits(),
        id,
    }
}

#[test]
fn recent_activities_keep_first_six() {
    let all: Vec<Activity> = (1..=8).map(activity).collect();
    let recent = match take_recent(all) {
        Ok(v) => v,
        Err(_) => panic!("enough activities"),
    };
    let ids: Vec<u64> = recent.iter().map(|a| a.id).collect();
    assert_eq!(ids, vec![1, 2, 3, 4, 5, 6]);
}

#[test]
fn fewer_than_six_activities_fail() {
    let all: Vec<Activity> = (1..=5).map(activity).collect();
    assert!(matches!(take_recent(all), Err(FetchError::TooFewRecords)));
}

#[test]
fn only_asset_keys_are_cleared() {
    let keys = vec![
        String::from("mapbox-maps/1.png"),
        String::from("photos/2.jpg"),
        String::from("mapbox-maps/"),
        String::from("mapbox-map"),
        String::from("x/mapbox-maps/3.png"),
        String::from("mapbox-maps/9.png"),
    ];
    assert_eq!(
        stale_asset_keys(&keys),
        vec![
            String::from("mapbox-maps/1.png"),
            String::from("mapbox-maps/"),
            String::from("mapbox-maps/9.png")
        ]
    );
    assert!(stale_asset_keys(&vec![]).is_empty());
}

#[test]
fn asset_keys_are_named_by_activity() {
    assert_eq!(asset_key(42), "mapbox-maps/42.png");
    assert_eq!(asset_key(0), "mapbox-maps/0.png");
    assert_eq!(asset_key(u64::MAX), "mapbox-maps/18446744073709551615.png");
}

#[test]
fn render_request_encodes_polyline() {
    assert_eq!(
        render_url("a b|c"),
        "https://api.mapbox.com/styles/v1/mattgleich/clxxsfdfm002401qj7jcxh47e/static/path-2+000(a%20b%7Cc)/auto/440x240@2x"
    );
    assert_eq!(
        render_url("Az09-._~@"),
        "https://api.mapbox.com/styles/v1/mattgleich/clxxsfdfm002401qj7jcxh47e/static/path-2+000(Az09-._~%40)/auto/440x240@2x"
    );
    assert_eq!(
        render_url_encoded("xyz"),
        "https://api.mapbox.com/styles/v1/mattgleich/clxxsfdfm002401qj7jcxh47e/static/path-2+000(xyz)/auto/440x240@2x"
    );
}

#[test]
fn challenge_is_echoed_for_expected_token() {
    let hub = Parameters { mode: "subscribe", verify_token: "secret", challenge: "15f7d1a91c1f40f8a748fd134752feb3" };
    let resp = answer_challenge(&hub, "secret").expect("token matches");
    assert_eq!(resp.challenge, "15f7d1a91c1f40f8a748fd134752feb3");
    assert!(answer_challenge(&hub, "other").is_none());
    assert!(answer_challenge(&hub, "").is_none());
}
