//! A single-instance background player that streams ambiance and music
//! tracks chosen by the local wall-clock hour.
//!
//! The library holds the verified logic: the hour slots and the clock
//! reading they come from, the catalog and ambiance selectors with the
//! addresses built from them, the decisions of the two playback loops, and
//! the lock-file protocol that keeps one instance per host.

pub mod catalog;
pub mod clock;
pub mod lock;
pub mod playback;
pub mod text;

pub use catalog::{Climate, Game, Rain, ORIGIN};
pub use clock::{current_slot, is_slot_boundary, is_slot_boundary_at, slot_at, Hour, WallTime};
pub use lock::{claim_lock, signal_outcome, teardown_exit_code, LockClaim, LockError};
pub use playback::{after_poll, music_url_at, music_url_now, plan_session, SessionPlan, WaitStep};
