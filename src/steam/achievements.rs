use crate::error::FetchError;
use crate::order::{ranked, sort_ranked, sorted_by_rank, Ranked};
use crate::snapshot::{views, Entity};
use crate::text::same_text;
use crate::time::{utc_from_secs, utc_representable, Timestamp};
use vstd::prelude::*;

verus! {

/// The game's schema, as the schema endpoint returns it.
pub struct SchemaForGame {
    pub game: Game,
}

pub struct Game {
    pub available_game_stats: GameStats,
}

pub struct GameStats {
    pub achievements: Vec<SchemaAchievement>,
}

/// One achievement as the game's schema describes it.
pub struct SchemaAchievement {
    pub display_name: String,
    pub icon: String,
    pub description: Option<String>,
    pub name: String,
}

/// The player's progress, as the player endpoint returns it.
pub struct PlayerAchievements {
    pub player_stats: PlayerStats,
}

pub struct PlayerStats {
    pub achievements: Option<Vec<PlayerAchievement>>,
}

/// One achievement as the player's progress reports it.
pub struct PlayerAchievement {
    pub api_name: String,
    pub achieved: u32,
    pub unlock_time: Option<i64>,
}

/// An achievement of the player, joined with its schema entry.
pub struct Achievement {
    pub api_name: String,
    pub achieved: bool,
    pub icon: String,
    pub display_name: String,
    pub description: Option<String>,
    pub unlock_time: Option<Timestamp>,
}

pub struct AchievementView {
    pub api_name: Seq<char>,
    pub achieved: bool,
    pub icon: Seq<char>,
    pub display_name: Seq<char>,
    pub description: Option<Seq<char>>,
    pub unlock_time: Option<Timestamp>,
}

impl View for Achievement {
    type V = AchievementView;

    open spec fn view(&self) -> AchievementView {
        AchievementView {
            api_name: self.api_name@,
            achieved: self.achieved,
            icon: self.icon@,
            display_name: self.display_name@,
            description: opt_text(self.description),
            unlock_time: self.unlock_time,
        }
    }
}

/// The characters of an optional text.
pub open spec fn opt_text(o: Option<String>) -> Option<Seq<char>> {
    match o {
        Some(s) => Some(s@),
        None => None,
    }
}

/// Whether two optional texts are both absent or hold the same characters.
pub fn same_opt_text(a: &Option<String>, b: &Option<String>) -> (r: bool)
    ensures
        r == (opt_text(*a) == opt_text(*b)),
{
    match (a, b) {
        (Some(x), Some(y)) => *x == *y,
        (None, None) => true,
        _ => false,
    }
}

pub fn copy_opt_text(a: &Option<String>) -> (r: Option<String>)
    ensures
        opt_text(r) == opt_text(*a),
{
    match a {
        Some(x) => Some(x.clone()),
        None => None,
    }
}

impl Entity for Achievement {
    fn same(&self, other: &Self) -> (r: bool) {
        self.api_name == other.api_name && self.achieved == other.achieved && self.icon
            == other.icon && self.display_name == other.display_name && same_opt_text(
            &self.description,
            &other.description,
        ) && self.unlock_time == other.unlock_time
    }
}

/// Achievements rank by unlock time, latest first; those without an unlock
/// time rank above all others.
impl Ranked for Achievement {
    open spec fn rank(v: AchievementView) -> int {
        match v.unlock_time {
            Some(t) => t.ordinal(),
            None => 0x1_0000_0000_0000_0000_0000_0000,
        }
    }

    fn ranks_at_least(&self, other: &Self) -> (r: bool) {
        proof {
            if let Some(t) = self.unlock_time {
                assert(t.ordinal() < 0x1_0000_0000_0000_0000_0000_0000) by (nonlinear_arith)
                    requires t.secs < 0x8000_0000_0000_0000, t.nanos < 0x1_0000_0000;
            }
            if let Some(t) = other.unlock_time {
                assert(t.ordinal() < 0x1_0000_0000_0000_0000_0000_0000) by (nonlinear_arith)
                    requires t.secs < 0x8000_0000_0000_0000, t.nanos < 0x1_0000_0000;
            }
        }
        match (&self.unlock_time, &other.unlock_time) {
            (None, _) => true,
            (Some(_), None) => false,
            (Some(a), Some(b)) => {
                proof {
                    assert(a.ordinal() >= b.ordinal() <==> !a.spec_before(*b)) by (nonlinear_arith)
                        requires a.nanos < 0x1_0000_0000, b.nanos < 0x1_0000_0000;
                }
                !a.before(b)
            },
        }
    }
}

/// The unlock time reported in seconds, as a timestamp.
pub open spec fn unlock_of(t: Option<i64>) -> Option<Timestamp> {
    match t {
        Some(s) => Some(Timestamp { secs: s, nanos: 0 }),
        None => None,
    }
}

/// A player's achievement joined with its schema entry.
pub open spec fn joined(p: PlayerAchievement, s: SchemaAchievement) -> AchievementView {
    AchievementView {
        api_name: p.api_name@,
        achieved: p.achieved == 1,
        icon: s.icon@,
        display_name: s.display_name@,
        description: opt_text(s.description),
        unlock_time: unlock_of(p.unlock_time),
    }
}

/// `p` joined with each schema entry of the same name, in schema order.
pub open spec fn joins_of(p: PlayerAchievement, ss: Seq<SchemaAchievement>) -> Seq<AchievementView>
    decreases ss.len(),
{
    if ss.len() == 0 {
        Seq::empty()
    } else {
        let rest = joins_of(p, ss.drop_last());
        if p.api_name@ == ss.last().name@ {
            rest.push(joined(p, ss.last()))
        } else {
            rest
        }
    }
}

/// Every player achievement joined with its schema entries, in player order.
pub open spec fn joins(ps: Seq<PlayerAchievement>, ss: Seq<SchemaAchievement>) -> Seq<AchievementView>
    decreases ps.len(),
{
    if ps.len() == 0 {
        Seq::empty()
    } else {
        joins(ps.drop_last(), ss) + joins_of(ps.last(), ss)
    }
}

/// Every unlock time that a join would carry is one chrono can represent.
pub open spec fn unlocks_representable(ps: Seq<PlayerAchievement>, ss: Seq<SchemaAchievement>) -> bool {
    forall|i: int, j: int|
        #![trigger ps[i], ss[j]]
        0 <= i < ps.len() && 0 <= j < ss.len() && ps[i].api_name@ == ss[j].name@
            && ps[i].unlock_time is Some ==> utc_representable(ps[i].unlock_time->0 as int)
}

/// What the player endpoint answers for a game without achievements.
pub const NO_STATS_BODY: &'static str = "{\"playerstats\":{\"error\":\"Requested app has no stats\",\"success\":false}}";

/// Whether the player endpoint's answer says the game has no achievements.
pub fn reports_no_stats(body: &str) -> (r: bool)
    ensures
        r == (body@ == NO_STATS_BODY@),
{
    same_text(body, NO_STATS_BODY)
}

/// Joins one player achievement with one schema entry.
fn join(p: &PlayerAchievement, s: &SchemaAchievement) -> (r: Result<Achievement, FetchError>)
    ensures
        r is Ok <==> (p.unlock_time is Some ==> utc_representable(p.unlock_time->0 as int)),
        r matches Ok(a) ==> a@ == joined(*p, *s),
        r matches Err(e) ==> e == FetchError::Malformed,
{
    let unlock_time = match p.unlock_time {
        Some(secs) => match utc_from_secs(secs) {
            Some(t) => Some(t),
            None => return Err(FetchError::Malformed),
        },
        None => None,
    };
    Ok(
        Achievement {
            api_name: p.api_name.clone(),
            achieved: p.achieved == 1,
            icon: s.icon.clone(),
            display_name: s.display_name.clone(),
            description: copy_opt_text(&s.description),
            unlock_time,
        },
    )
}

/// Joins every player achievement with each schema entry of the same name,
/// in player order, then schema order. Fails when a joined unlock time is
/// out of chrono's range.
pub fn join_achievements(player: &Vec<PlayerAchievement>, schema: &Vec<SchemaAchievement>) -> (r:
    Result<Vec<Achievement>, FetchError>)
    ensures
        r is Ok <==> unlocks_representable(player@, schema@),
        r matches Ok(v) ==> views(v@) == joins(player@, schema@),
        r matches Err(e) ==> e == FetchError::Malformed,
{
    let mut out: Vec<Achievement> = Vec::new();
    let mut i: usize = 0;
    assert(views(out@) =~= joins(player@.subrange(0, 0), schema@));
    while i < player.len()
        invariant
            0 <= i <= player.len(),
            views(out@) == joins(player@.subrange(0, i as int), schema@),
            forall|a: int, b: int|
                #![trigger player@[a], schema@[b]]
                0 <= a < i && 0 <= b < schema.len() && player@[a].api_name@ == schema@[b].name@
                    && player@[a].unlock_time is Some ==> utc_representable(
                    player@[a].unlock_time->0 as int,
                ),
        decreases player.len() - i,
    {
        let p = &player[i];
        let ghost done = views(out@);
        let mut j: usize = 0;
        assert(joins_of(*p, schema@.subrange(0, 0)) =~= Seq::<AchievementView>::empty());
        assert(views(out@) =~= done + joins_of(*p, schema@.subrange(0, 0)));
        while j < schema.len()
            invariant
                0 <= i < player.len(),
                p == player@[i as int],
                0 <= j <= schema.len(),
                views(out@) == done + joins_of(*p, schema@.subrange(0, j as int)),
                forall|b: int|
                    #![trigger schema@[b]]
                    0 <= b < j && p.api_name@ == schema@[b].name@ && p.unlock_time is Some
                        ==> utc_representable(p.unlock_time->0 as int),
            decreases schema.len() - j,
        {
            let s = &schema[j];
            let ghost prev = views(out@);
            assert(schema@.subrange(0, j as int + 1).drop_last() =~= schema@.subrange(0, j as int));
            if p.api_name == s.name {
                match join(p, s) {
                    Ok(a) => {
                        out.push(a);
                        assert(views(out@) =~= prev.push(joined(*p, *s)));
                    },
                    Err(e) => {
                        assert(!unlocks_representable(player@, schema@));
                        return Err(e);
                    },
                }
            }
            j += 1;
        }
        assert(schema@.subrange(0, schema.len() as int) =~= schema@);
        assert(player@.subrange(0, i as int + 1).drop_last() =~= player@.subrange(0, i as int));
        i += 1;
    }
    assert(player@.subrange(0, player.len() as int) =~= player@);
    Ok(out)
}

/// The player's achievements joined with the schema and ordered: those
/// without an unlock time first, then the latest unlocked first; ties keep
/// the joined order.
pub fn collect_achievements(player: &Vec<PlayerAchievement>, schema: &GameStats) -> (r: Result<
    Vec<Achievement>,
    FetchError,
>)
    ensures
        r is Ok <==> unlocks_representable(player@, schema.achievements@),
        r matches Ok(v) ==> views(v@) == ranked::<Achievement>(joins(player@, schema.achievements@)),
        r matches Ok(v) ==> sorted_by_rank::<Achievement>(views(v@)),
        r matches Err(e) ==> e == FetchError::Malformed,
{
    let joined = join_achievements(player, &schema.achievements)?;
    Ok(sort_ranked(joined))
}

} // verus!
