use crate::error::FetchError;
use crate::snapshot::{views, Entity};
use crate::time::Timestamp;
use vstd::prelude::*;

verus! {

/// An activity as served. Measurements that the provider reports as
/// floating-point numbers are held as their IEEE-754 single-precision bit
/// patterns, so that equality stays exact and structural.
pub struct Activity {
    pub name: String,
    pub sport_type: String,
    pub start_date: Timestamp,
    pub timezone: String,
    pub map: ActivityMap,
    pub trainer: bool,
    pub commute: bool,
    pub private: bool,
    pub average_speed: u32,
    pub max_speed: u32,
    pub average_temp: i32,
    pub average_cadence: u32,
    pub average_watts: u32,
    pub device_watts: bool,
    pub average_heartrate: u32,
    pub total_elevation_gain: u32,
    pub moving_time: u32,
    pub suffer_score: u32,
    pub pr_count: u32,
    pub distance: u32,
    pub id: u64,
}

/// The activity's route, as an encoded polyline.
pub struct ActivityMap {
    pub summary_polyline: String,
}

pub struct ActivityView {
    pub name: Seq<char>,
    pub sport_type: Seq<char>,
    pub start_date: Timestamp,
    pub timezone: Seq<char>,
    pub summary_polyline: Seq<char>,
    pub trainer: bool,
    pub commute: bool,
    pub private: bool,
    pub average_speed: u32,
    pub max_speed: u32,
    pub average_temp: i32,
    pub average_cadence: u32,
    pub average_watts: u32,
    pub device_watts: bool,
    pub average_heartrate: u32,
    pub total_elevation_gain: u32,
    pub moving_time: u32,
    pub suffer_score: u32,
    pub pr_count: u32,
    pub distance: u32,
    pub id: u64,
}

impl View for Activity {
    type V = ActivityView;

    open spec fn view(&self) -> ActivityView {
        ActivityView {
            name: self.name@,
            sport_type: self.sport_type@,
            start_date: self.start_date,
            timezone: self.timezone@,
            summary_polyline: self.map.summary_polyline@,
            trainer: self.trainer,
            commute: self.commute,
            private: self.private,
            average_speed: self.average_speed,
            max_speed: self.max_speed,
            average_temp: self.average_temp,
            average_cadence: self.average_cadence,
            average_watts: self.average_watts,
            device_watts: self.device_watts,
            average_heartrate: self.average_heartrate,
            total_elevation_gain: self.total_elevation_gain,
            moving_time: self.moving_time,
            suffer_score: self.suffer_score,
            pr_count: self.pr_count,
            distance: self.distance,
            id: self.id,
        }
    }
}

impl Entity for Activity {
    fn same(&self, other: &Self) -> (r: bool) {
        self.name == other.name && self.sport_type == other.sport_type && self.start_date
            == other.start_date && self.timezone == other.timezone && self.map.summary_polyline
            == other.map.summary_polyline && self.trainer == other.trainer && self.commute
            == other.commute && self.private == other.private && self.average_speed
            == other.average_speed && self.max_speed == other.max_speed && self.average_temp
            == other.average_temp && self.average_cadence == other.average_cadence
            && self.average_watts == other.average_watts && self.device_watts
            == other.device_watts && self.average_heartrate == other.average_heartrate
            && self.total_elevation_gain == other.total_elevation_gain && self.moving_time
            == other.moving_time && self.suffer_score == other.suffer_score && self.pr_count
            == other.pr_count && self.distance == other.distance && self.id == other.id
    }
}

/// How many recent activities a snapshot holds.
pub const RECENT_ACTIVITIES: usize = 6;

/// Keeps the first activities, newest first as the provider lists them, as
/// many as a snapshot holds. Fails when there are fewer.
pub fn take_recent(activities: Vec<Activity>) -> (r: Result<Vec<Activity>, FetchError>)
    ensures
        r is Ok <==> activities.len() >= RECENT_ACTIVITIES,
        r matches Ok(v) ==> views(v@) == views(activities@).take(RECENT_ACTIVITIES as int),
        r matches Err(e) ==> e == FetchError::TooFewRecords,
{
    if activities.len() < RECENT_ACTIVITIES {
        return Err(FetchError::TooFewRecords);
    }
    let mut v = activities;
    v.truncate(RECENT_ACTIVITIES);
    assert(views(v@) =~= views(activities@).take(RECENT_ACTIVITIES as int));
    Ok(v)
}

} // verus!
