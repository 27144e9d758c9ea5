use nookd::{
    after_poll, claim_lock, music_url_at, music_url_now, plan_session, signal_outcome,
    teardown_exit_code, Climate, Game, LockError, Rain, SessionPlan, WaitStep, WallTime, ORIGIN,
};
use nookd::text::{decimal_text, parse_u32};

#[test]
fn new_horizons_without_ambiance() {
    let plan = plan_session("new-horizons", "none").unwrap();
    assert_eq!(plan, SessionPlan { game: Game::NewHorizons(Climate::Plain), rain: None });
    let t = WallTime { hour: 15, minute: 12, second: 3 };
    assert_eq!(music_url_at(&plan.game, &t).unwrap(), format!("{}new-horizons/03pm.audio", ORIGIN));
}

#[test]
fn ambiance_is_planned_when_named() {
    let plan = plan_session("new-leaf-snowy", "normal").unwrap();
    assert_eq!(plan.game, Game::NewLeaf(Climate::Snowy));
    assert_eq!(plan.rain, Some(Rain::Normal));
    assert_eq!(plan_session("new-leaf", "no-thunder").unwrap().rain, Some(Rain::NoThunder));
}

#[test]
fn unknown_ambiance_means_none() {
    assert_eq!(plan_session("wild-world", "drizzle").unwrap().rain, None);
}

#[test]
fn unknown_game_is_refused() {
    assert_eq!(plan_session("animal-crossing", "normal"), Err(()));
    assert_eq!(plan_session("new-horizons-cherry", "none"), Err(()));
}

#[test]
fn population_growing_cherry_fetch() {
    let plan = plan_session("population-growing-cherry", "game").unwrap();
    let t = WallTime { hour: 0, minute: 0, second: 0 };
    assert_eq!(
        music_url_at(&plan.game, &t).unwrap(),
        format!("{}population-growing-cherry/12am.audio", ORIGIN)
    );
}

#[test]
fn music_url_now_names_the_entry() {
    let u = music_url_now(&Game::PocketCamp(Climate::Snowy)).unwrap();
    assert!(u.starts_with(&format!("{}pocket-camp/", ORIGIN)));
    assert!(u.ends_with(".audio"));
}

#[test]
fn hour_turn_wins_over_clip_end() {
    assert_eq!(after_poll(true, true), WaitStep::HourTurned);
    assert_eq!(after_poll(true, false), WaitStep::HourTurned);
    assert_eq!(after_poll(false, true), WaitStep::ClipEnded);
    assert_eq!(after_poll(false, false), WaitStep::Keep);
}

#[test]
fn first_instance_writes_its_identifier() {
    let c = claim_lock(None, 9999).unwrap();
    assert_eq!(c.terminate, None);
    assert_eq!(c.record, "9999");
}

#[test]
fn second_instance_terminates_the_owner() {
    let c = claim_lock(Some("4242"), 9999).unwrap();
    assert_eq!(c.terminate, Some(4242));
    assert_eq!(c.record, "9999");
}

#[test]
fn bad_records_are_refused() {
    for text in ["", "abc", "42 ", "4242\n", "-5", "+", "4294967296", "2147483648"] {
        assert_eq!(claim_lock(Some(text), 1).unwrap_err(), LockError::BadRecord);
    }
}

#[test]
fn record_with_sign_and_limits() {
    assert_eq!(claim_lock(Some("+17"), 1).unwrap().terminate, Some(17));
    assert_eq!(claim_lock(Some("2147483647"), 1).unwrap().terminate, Some(2147483647));
    assert_eq!(claim_lock(Some("0"), 3).unwrap().record, "3");
}

#[test]
fn signal_status() {
    assert_eq!(signal_outcome(0), Ok(()));
    assert_eq!(signal_outcome(-1), Err(LockError::SignalFailed));
}

#[test]
fn teardown_codes() {
    assert_eq!(teardown_exit_code(true), 0);
    assert_eq!(teardown_exit_code(false), 1);
}

#[test]
fn decimal_round_trip() {
    for n in [0u32, 7, 10, 99, 100, 4242, 9999, 65536, u32::MAX] {
        let s = decimal_text(n);
        assert_eq!(s, n.to_string());
        assert_eq!(parse_u32(&s), Some(n));
    }
    assert_eq!(parse_u32("4294967296"), None);
    assert_eq!(parse_u32("007"), Some(7));
    assert_eq!(parse_u32("+"), None);
    assert_eq!(parse_u32("1_000"), None);
}
