//! The decisions of the playback supervisor and of its two stream loops.
//!
//! The loops themselves fetch, decode and play; what they decide between
//! those steps is here.

use vstd::prelude::*;

use crate::catalog::{game_label, game_listed, rain_name, track_url, Game, Rain, ORIGIN};
use crate::clock::{current_slot, slot_at, slot_of_day_hour, Hour, WallTime};
use crate::text::same_text;

verus! {

/// What a session plays: a catalog entry, and an ambiance mood if any.
#[derive(Clone, Copy, Debug, PartialEq, Eq, Structural)]
pub struct SessionPlan {
    pub game: Game,
    pub rain: Option<Rain>,
}

/// The plan for the given selectors. The catalog entry is required: a text
/// outside the catalog is refused. An ambiance text that names no mood,
/// `none` among them, means no ambiance.
pub fn plan_session(game: &str, rain: &str) -> (r: Result<SessionPlan, ()>)
    ensures
        match r {
            Ok(p) => {
                &&& game_listed(p.game)
                &&& game_label(p.game) == game@
                &&& match p.rain {
                    Some(x) => rain_name(x) == rain@,
                    None => forall|x: Rain| rain_name(x) != rain@,
                }
            },
            Err(_) => forall|g: Game| game_listed(g) ==> game_label(g) != game@,
        },
{
    let mood = if same_text(rain, "none") {
        proof {
            reveal_strlit("none");
            reveal_strlit("no-thunder");
            reveal_strlit("normal");
            reveal_strlit("game");
            assert(rain_name(Rain::NoThunder)[2] != rain@[2]);
            assert(rain_name(Rain::Normal)[2] != rain@[2]);
        }
        None
    } else {
        match Rain::from_str(rain) {
            Ok(x) => Some(x),
            Err(_) => None,
        }
    };
    match Game::from_str(game) {
        Ok(g) => Ok(SessionPlan { game: g, rain: mood }),
        Err(_) => Err(()),
    }
}

/// What the music loop does after one look at the clock and the clip.
#[derive(Clone, Copy, Debug, PartialEq, Eq, Structural)]
pub enum WaitStep {
    /// Neither happened: look again.
    Keep,
    /// The hour turned: fetch the new hour's track, cutting the clip.
    HourTurned,
    /// The clip ended within the hour: fetch the track again.
    ClipEnded,
}

/// The step after a look: the turn of the hour comes first, then the end
/// of the clip.
pub open spec fn wait_step(boundary: bool, finished: bool) -> WaitStep {
    if boundary {
        WaitStep::HourTurned
    } else if finished {
        WaitStep::ClipEnded
    } else {
        WaitStep::Keep
    }
}

/// Decides the music loop's next step from whether the clock is at an hour
/// boundary and whether the clip has finished.
pub fn after_poll(boundary: bool, finished: bool) -> (r: WaitStep)
    ensures
        r == wait_step(boundary, finished),
{
    if boundary {
        WaitStep::HourTurned
    } else if finished {
        WaitStep::ClipEnded
    } else {
        WaitStep::Keep
    }
}

/// Whether the music loop leaves its wait for a new track.
pub open spec fn leaves_wait(s: WaitStep) -> bool {
    s != WaitStep::Keep
}

/// The music loop waits exactly while the hour has not turned and the clip
/// plays on; when both happen at once the turn of the hour is the reason.
pub proof fn law_wait_priority(boundary: bool, finished: bool)
    ensures
        leaves_wait(wait_step(boundary, finished)) <==> (boundary || finished),
        boundary ==> wait_step(boundary, finished) == WaitStep::HourTurned,
{
}

/// The address of the track for a catalog entry at a clock reading.
pub fn music_url_at(game: &Game, t: &WallTime) -> (r: Result<String, ()>)
    requires
        t.wf(),
    ensures
        match r {
            Ok(u) => u@ == track_url(ORIGIN@, *game, slot_of_day_hour(t.hour as nat)),
            Err(_) => false,
        },
{
    match slot_at(t) {
        Ok(h) => Ok(game.url(ORIGIN, h)),
        Err(e) => Err(e),
    }
}

/// The address of the track for a catalog entry at the current local hour.
pub fn music_url_now(game: &Game) -> (r: Result<String, ()>)
    ensures
        match r {
            Ok(u) => exists|h: Hour| u@ == track_url(ORIGIN@, *game, h),
            Err(_) => false,
        },
{
    match current_slot() {
        Ok(h) => Ok(game.url(ORIGIN, h)),
        Err(e) => Err(e),
    }
}

} // verus!
