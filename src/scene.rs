//! Which scene of the tableau a date calls for.
use vstd::prelude::*;
use crate::calendar::{
    chrono_ordinal,
    days_in_year,
    day_of_year,
    lemma_day_of_year_bounds,
    CalendarDate,
};

verus! {

/// First day, counted from the feast, of the anticipation window.
pub const ANTICIPATION_START: i64 = -24;

/// First day, counted from the feast, of the nativity window (its eve).
pub const NATIVITY_START: i64 = -1;

/// First day, counted from the feast, of the epiphany window.
pub const EPIPHANY_START: i64 = 13;

/// First day, counted from the feast, after the season.
pub const SEASON_END: i64 = 41;

/// The configuration of the tableau, from the barest to the fullest.
#[derive(Clone, Copy, Debug, PartialEq, Eq, Structural)]
pub enum Scene {
    OutOfSeason,
    Anticipation,
    Nativity,
    Epiphany,
}

impl Scene {
    /// The scene's number: 0 out of season up to 3 at epiphany.
    pub open spec fn spec_id(&self) -> int {
        match self {
            Scene::OutOfSeason => 0,
            Scene::Anticipation => 1,
            Scene::Nativity => 2,
            Scene::Epiphany => 3,
        }
    }

    pub fn id(&self) -> (r: u8)
        ensures
            r == self.spec_id(),
            r < 4,
    {
        match self {
            Scene::OutOfSeason => 0,
            Scene::Anticipation => 1,
            Scene::Nativity => 2,
            Scene::Epiphany => 3,
        }
    }
}

/// Which date anchors the season.
#[derive(Clone, Copy, Debug, PartialEq, Eq, Structural)]
pub enum CalendarMode {
    /// December 25th.
    Gregorian,
    /// January 6th.
    Orthodox,
    /// July 25th.
    July,
}

impl CalendarMode {
    pub open spec fn spec_feast_month(&self) -> int {
        match self {
            CalendarMode::Gregorian => 12,
            CalendarMode::Orthodox => 1,
            CalendarMode::July => 7,
        }
    }

    pub open spec fn spec_feast_day(&self) -> int {
        match self {
            CalendarMode::Gregorian => 25,
            CalendarMode::Orthodox => 6,
            CalendarMode::July => 25,
        }
    }

    /// The month and day of the feast in this mode.
    pub fn feast(&self) -> (r: (u32, u32))
        ensures
            r.0 == self.spec_feast_month(),
            r.1 == self.spec_feast_day(),
    {
        match self {
            CalendarMode::Gregorian => (12, 25),
            CalendarMode::Orthodox => (1, 6),
            CalendarMode::July => (7, 25),
        }
    }
}

/// The day of the year of the feast in `year`.
pub open spec fn feast_ordinal(year: int, mode: CalendarMode) -> int {
    day_of_year(year, mode.spec_feast_month(), mode.spec_feast_day())
}

/// The signed number of days from the feast to `date`. It is counted from the
/// feast of the date's own year, unless that puts the date before the
/// anticipation window, when it is counted from the feast of the year before,
/// or after the season, when it is counted to the feast of the year after.
pub open spec fn spec_season_offset(date: CalendarDate, mode: CalendarMode) -> int {
    let y = date.spec_year();
    let raw = date.ordinal() - feast_ordinal(y, mode);
    if raw < ANTICIPATION_START {
        date.ordinal() + days_in_year(y - 1) - feast_ordinal(y - 1, mode)
    } else if raw >= SEASON_END {
        date.ordinal() - days_in_year(y) - feast_ordinal(y + 1, mode)
    } else {
        raw
    }
}

pub open spec fn in_anticipation(offset: int) -> bool {
    ANTICIPATION_START <= offset < NATIVITY_START
}

pub open spec fn in_nativity(offset: int) -> bool {
    NATIVITY_START <= offset < EPIPHANY_START
}

pub open spec fn in_epiphany(offset: int) -> bool {
    EPIPHANY_START <= offset < SEASON_END
}

pub open spec fn out_of_season(offset: int) -> bool {
    offset < ANTICIPATION_START || SEASON_END <= offset
}

/// The scene of the window that holds `offset`.
pub open spec fn spec_scene_for_offset(offset: int) -> Scene {
    if in_anticipation(offset) {
        Scene::Anticipation
    } else if in_nativity(offset) {
        Scene::Nativity
    } else if in_epiphany(offset) {
        Scene::Epiphany
    } else {
        Scene::OutOfSeason
    }
}

/// The four windows are disjoint and cover every offset: each offset lies in
/// exactly one of them, and its scene is that window's scene.
pub proof fn lemma_windows_partition(offset: int)
    ensures
        in_anticipation(offset) as int + in_nativity(offset) as int + in_epiphany(offset) as int
            + out_of_season(offset) as int == 1,
        in_anticipation(offset) <==> spec_scene_for_offset(offset) == Scene::Anticipation,
        in_nativity(offset) <==> spec_scene_for_offset(offset) == Scene::Nativity,
        in_epiphany(offset) <==> spec_scene_for_offset(offset) == Scene::Epiphany,
        out_of_season(offset) <==> spec_scene_for_offset(offset) == Scene::OutOfSeason,
{
}

/// The scene of the window that holds `offset`.
pub fn scene_for_offset(offset: i64) -> (r: Scene)
    ensures
        r == spec_scene_for_offset(offset as int),
{
    if ANTICIPATION_START <= offset && offset < NATIVITY_START {
        Scene::Anticipation
    } else if NATIVITY_START <= offset && offset < EPIPHANY_START {
        Scene::Nativity
    } else if EPIPHANY_START <= offset && offset < SEASON_END {
        Scene::Epiphany
    } else {
        Scene::OutOfSeason
    }
}

/// The day of the year of `year`-`month`-`day`, a day that exists.
fn ordinal_of(year: i32, month: u32, day: u32) -> (r: i64)
    requires
        -262143 <= year <= 262142,
        crate::calendar::is_calendar_day(year as int, month as int, day as int),
    ensures
        r == day_of_year(year as int, month as int, day as int),
        1 <= r <= 366,
{
    proof {
        lemma_day_of_year_bounds(year as int, month as int, day as int);
    }
    chrono_ordinal(year, month, day).unwrap() as i64
}

/// The signed number of days from the feast to `date` (see `spec_season_offset`).
pub fn season_offset(date: &CalendarDate, mode: CalendarMode) -> (r: i64)
    requires
        date.wf(),
    ensures
        r == spec_season_offset(*date, mode),
{
    let (month, day) = mode.feast();
    let y = date.year();
    let today = ordinal_of(y, date.month(), date.day());
    let feast = ordinal_of(y, month, day);
    let raw = today - feast;
    if raw < ANTICIPATION_START {
        let last_year_len = ordinal_of(y - 1, 12, 31);
        let last_feast = ordinal_of(y - 1, month, day);
        today + last_year_len - last_feast
    } else if raw >= SEASON_END {
        let year_len = ordinal_of(y, 12, 31);
        let next_feast = ordinal_of(y + 1, month, day);
        today - year_len - next_feast
    } else {
        raw
    }
}

/// The scene that `date` calls for in `mode`.
pub open spec fn spec_resolve(date: CalendarDate, mode: CalendarMode) -> Scene {
    spec_scene_for_offset(spec_season_offset(date, mode))
}

/// The scene that `date` calls for in `mode`: the scene of the window that
/// holds the date's offset from the feast.
pub fn resolve(date: &CalendarDate, mode: CalendarMode) -> (r: Scene)
    requires
        date.wf(),
    ensures
        r == spec_resolve(*date, mode),
        0 <= r.spec_id() < 4,
{
    scene_for_offset(season_offset(date, mode))
}

} // verus!
