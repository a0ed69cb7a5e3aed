use crate::error::FetchError;
use crate::order::{lemma_ranked_sorted, ranked, sort_ranked, sorted_by_rank, Ranked};
use crate::snapshot::{same_items, views, Entity};
use crate::steam::achievements::{opt_text, same_opt_text, Achievement, AchievementView};
use crate::text::{decimal, decimal_digits};
use crate::time::{utc_from_secs, utc_representable, Timestamp};
use vstd::prelude::*;
use vstd::string::StringExecFns;

verus! {

/// The owned-games endpoint's answer.
pub struct MainSteamResponse {
    pub response: SteamResponse,
}

pub struct SteamResponse {
    pub games: Vec<RawGame>,
}

/// One owned game as the endpoint reports it.
pub struct RawGame {
    pub name: String,
    pub appid: u32,
    pub img_icon_url: String,
    pub rtime_last_played: i64,
    pub playtime_forever: u32,
}

pub struct RawGameView {
    pub name: Seq<char>,
    pub appid: u32,
    pub img_icon_url: Seq<char>,
    pub rtime_last_played: i64,
    pub playtime_forever: u32,
}

impl View for RawGame {
    type V = RawGameView;

    open spec fn view(&self) -> RawGameView {
        RawGameView {
            name: self.name@,
            appid: self.appid,
            img_icon_url: self.img_icon_url@,
            rtime_last_played: self.rtime_last_played,
            playtime_forever: self.playtime_forever,
        }
    }
}

/// Games rank by when they were last played, most recent first.
impl Ranked for RawGame {
    open spec fn rank(v: RawGameView) -> int {
        v.rtime_last_played as int
    }

    fn ranks_at_least(&self, other: &Self) -> (r: bool) {
        self.rtime_last_played >= other.rtime_last_played
    }
}

/// How many of a game's achievements the player has completed.
#[derive(Clone, Copy, Debug, PartialEq, Eq, Structural)]
pub struct Progress {
    pub completed: usize,
    pub total: usize,
}

/// A recently played game as served.
pub struct Game {
    pub name: String,
    pub app_id: u32,
    pub url: String,
    pub icon_url: String,
    pub header_url: String,
    pub library_url: Option<String>,
    pub playtime_forever: u32,
    pub rtime_last_played: Timestamp,
    pub achievement_progress: Option<Progress>,
    pub achievements: Option<Vec<Achievement>>,
}

pub struct GameView {
    pub name: Seq<char>,
    pub app_id: u32,
    pub url: Seq<char>,
    pub icon_url: Seq<char>,
    pub header_url: Seq<char>,
    pub library_url: Option<Seq<char>>,
    pub playtime_forever: u32,
    pub rtime_last_played: Timestamp,
    pub achievement_progress: Option<Progress>,
    pub achievements: Option<Seq<AchievementView>>,
}

pub open spec fn opt_views(o: Option<Vec<Achievement>>) -> Option<Seq<AchievementView>> {
    match o {
        Some(v) => Some(views(v@)),
        None => None,
    }
}

impl View for Game {
    type V = GameView;

    open spec fn view(&self) -> GameView {
        GameView {
            name: self.name@,
            app_id: self.app_id,
            url: self.url@,
            icon_url: self.icon_url@,
            header_url: self.header_url@,
            library_url: opt_text(self.library_url),
            playtime_forever: self.playtime_forever,
            rtime_last_played: self.rtime_last_played,
            achievement_progress: self.achievement_progress,
            achievements: opt_views(self.achievements),
        }
    }
}

fn same_opt_items(a: &Option<Vec<Achievement>>, b: &Option<Vec<Achievement>>) -> (r: bool)
    ensures
        r == (opt_views(*a) == opt_views(*b)),
{
    match (a, b) {
        (Some(x), Some(y)) => same_items(x, y),
        (None, None) => true,
        _ => false,
    }
}

impl Entity for Game {
    fn same(&self, other: &Self) -> (r: bool) {
        self.name == other.name && self.app_id == other.app_id && self.url == other.url
            && self.icon_url == other.icon_url && self.header_url == other.header_url
            && same_opt_text(&self.library_url, &other.library_url) && self.playtime_forever
            == other.playtime_forever && self.rtime_last_played == other.rtime_last_played
            && self.achievement_progress == other.achievement_progress && same_opt_items(
            &self.achievements,
            &other.achievements,
        )
    }
}

/// How many recently played games a snapshot holds.
pub const RECENT_GAMES: usize = 20;

pub const STORE_PREFIX: &'static str = "https://store.steampowered.com/app/";

pub const ICON_PREFIX: &'static str = "https://media.steampowered.com/steamcommunity/public/images/apps/";

pub const ASSET_PREFIX: &'static str = "https://shared.akamai.steamstatic.com/store_item_assets/steam/apps/";

pub const HEADER_FILE: &'static str = "/header.jpg";

pub const LIBRARY_FILE: &'static str = "/library_600x900.jpg";

pub const SLASH: &'static str = "/";

pub const JPG: &'static str = ".jpg";

/// The games most recently played first, ties in reported order, cut to
/// the size of a snapshot.
pub open spec fn recent_of(games: Seq<RawGame>) -> Seq<RawGameView> {
    ranked::<RawGame>(views(games)).take(RECENT_GAMES as int)
}

/// Orders the games by when they were last played, most recent first, and
/// keeps as many as a snapshot holds. Fails when there are fewer.
pub fn select_recent(games: Vec<RawGame>) -> (r: Result<Vec<RawGame>, FetchError>)
    ensures
        r is Ok <==> games.len() >= RECENT_GAMES,
        r matches Ok(v) ==> views(v@) == recent_of(games@),
        r matches Ok(v) ==> sorted_by_rank::<RawGame>(views(v@)),
        r matches Err(e) ==> e == FetchError::TooFewRecords,
{
    if games.len() < RECENT_GAMES {
        return Err(FetchError::TooFewRecords);
    }
    let mut sorted = sort_ranked(games);
    proof {
        lemma_ranked_sorted::<RawGame>(views(games@));
    }
    sorted.truncate(RECENT_GAMES);
    assert(views(sorted@) =~= recent_of(games@));
    Ok(sorted)
}

pub open spec fn store_url_of(app_id: u32) -> Seq<char> {
    STORE_PREFIX@ + decimal_digits(app_id as nat) + SLASH@
}

pub open spec fn icon_url_of(app_id: u32, icon: Seq<char>) -> Seq<char> {
    ICON_PREFIX@ + decimal_digits(app_id as nat) + SLASH@ + icon + JPG@
}

pub open spec fn header_url_of(app_id: u32) -> Seq<char> {
    ASSET_PREFIX@ + decimal_digits(app_id as nat) + HEADER_FILE@
}

pub open spec fn library_url_of(app_id: u32) -> Seq<char> {
    ASSET_PREFIX@ + decimal_digits(app_id as nat) + LIBRARY_FILE@
}

/// The game's store page.
pub fn store_url(app_id: u32) -> (r: String)
    ensures
        r@ == store_url_of(app_id),
{
    String::from_str(STORE_PREFIX).concat(decimal(app_id as u64).as_str()).concat(SLASH)
}

/// The game's icon, named by the icon hash the endpoint reports.
pub fn icon_url(app_id: u32, icon: &str) -> (r: String)
    ensures
        r@ == icon_url_of(app_id, icon@),
{
    String::from_str(ICON_PREFIX).concat(decimal(app_id as u64).as_str()).concat(SLASH).concat(
        icon,
    ).concat(JPG)
}

/// The game's header image.
pub fn header_url(app_id: u32) -> (r: String)
    ensures
        r@ == header_url_of(app_id),
{
    String::from_str(ASSET_PREFIX).concat(decimal(app_id as u64).as_str()).concat(HEADER_FILE)
}

/// Where the game's library artwork would be; not every game has one.
pub fn library_url(app_id: u32) -> (r: String)
    ensures
        r@ == library_url_of(app_id),
{
    String::from_str(ASSET_PREFIX).concat(decimal(app_id as u64).as_str()).concat(LIBRARY_FILE)
}

/// How many of the achievements are completed.
pub open spec fn completed_count(s: Seq<AchievementView>) -> nat
    decreases s.len(),
{
    if s.len() == 0 {
        0
    } else {
        completed_count(s.drop_last()) + if s.last().achieved { 1nat } else { 0nat }
    }
}

pub open spec fn progress_of(a: Option<Seq<AchievementView>>) -> Option<Progress> {
    match a {
        Some(s) => Some(Progress { completed: completed_count(s) as usize, total: s.len() as usize }),
        None => None,
    }
}

/// The served game for `raw`, given whether its library artwork exists
/// and its achievements, if it has any.
pub open spec fn game_of(
    raw: RawGameView,
    library_exists: bool,
    achievements: Option<Seq<AchievementView>>,
) -> GameView {
    GameView {
        name: raw.name,
        app_id: raw.appid,
        url: store_url_of(raw.appid),
        icon_url: icon_url_of(raw.appid, raw.img_icon_url),
        header_url: header_url_of(raw.appid),
        library_url: if library_exists { Some(library_url_of(raw.appid)) } else { None },
        playtime_forever: raw.playtime_forever,
        rtime_last_played: Timestamp { secs: raw.rtime_last_played, nanos: 0 },
        achievement_progress: progress_of(achievements),
        achievements,
    }
}

fn count_completed(v: &Vec<Achievement>) -> (r: usize)
    ensures
        r == completed_count(views(v@)),
{
    let mut n: usize = 0;
    let mut i: usize = 0;
    while i < v.len()
        invariant
            0 <= i <= v.len(),
            n == completed_count(views(v@).take(i as int)),
            n <= i,
        decreases v.len() - i,
    {
        assert(views(v@).take(i as int + 1).drop_last() =~= views(v@).take(i as int));
        if v[i].achieved {
            n += 1;
        }
        i += 1;
    }
    assert(views(v@).take(v.len() as int) =~= views(v@));
    n
}

/// Builds the served game. Fails when the last-played time is out of
/// chrono's range.
pub fn build_game(raw: &RawGame, library_exists: bool, achievements: Option<Vec<Achievement>>) -> (r:
    Result<Game, FetchError>)
    ensures
        r is Ok <==> utc_representable(raw.rtime_last_played as int),
        r matches Ok(g) ==> g@ == game_of(raw@, library_exists, opt_views(achievements)),
        r matches Err(e) ==> e == FetchError::Malformed,
{
    let played = match utc_from_secs(raw.rtime_last_played) {
        Some(t) => t,
        None => return Err(FetchError::Malformed),
    };
    let achievement_progress = match &achievements {
        Some(v) => Some(Progress { completed: count_completed(v), total: v.len() }),
        None => None,
    };
    Ok(
        Game {
            name: raw.name.clone(),
            app_id: raw.appid,
            url: store_url(raw.appid),
            icon_url: icon_url(raw.appid, raw.img_icon_url.as_str()),
            header_url: header_url(raw.appid),
            library_url: if library_exists { Some(library_url(raw.appid)) } else { None },
            playtime_forever: raw.playtime_forever,
            rtime_last_played: played,
            achievement_progress,
            achievements,
        },
    )
}

} // verus!
