//! Hour slots of the day and the local wall clock they are read from.

use chrono::Timelike;
use vstd::arithmetic::div_mod::lemma_fundamental_div_mod;
use vstd::prelude::*;

use crate::text::{digit_char, same_text};

verus! {

/// One of the twenty-four hours of the day, on the 12-hour clock with its
/// meridiem. Each names the tracks that play during that hour.
#[derive(Clone, Copy, Debug, PartialEq, Eq, Structural)]
pub enum Hour {
    TwelveAm,
    OneAm,
    TwoAm,
    ThreeAm,
    FourAm,
    FiveAm,
    SixAm,
    SevenAm,
    EightAm,
    NineAm,
    TenAm,
    ElevenAm,
    TwelvePm,
    OnePm,
    TwoPm,
    ThreePm,
    FourPm,
    FivePm,
    SixPm,
    SevenPm,
    EightPm,
    NinePm,
    TenPm,
    ElevenPm,
}

/// The canonical text of an hour slot: two digits of the 12-hour clock,
/// then `am` or `pm`.
pub open spec fn hour_label(h: Hour) -> Seq<char> {
    match h {
        Hour::TwelveAm => "12am"@,
        Hour::OneAm => "01am"@,
        Hour::TwoAm => "02am"@,
        Hour::ThreeAm => "03am"@,
        Hour::FourAm => "04am"@,
        Hour::FiveAm => "05am"@,
        Hour::SixAm => "06am"@,
        Hour::SevenAm => "07am"@,
        Hour::EightAm => "08am"@,
        Hour::NineAm => "09am"@,
        Hour::TenAm => "10am"@,
        Hour::ElevenAm => "11am"@,
        Hour::TwelvePm => "12pm"@,
        Hour::OnePm => "01pm"@,
        Hour::TwoPm => "02pm"@,
        Hour::ThreePm => "03pm"@,
        Hour::FourPm => "04pm"@,
        Hour::FivePm => "05pm"@,
        Hour::SixPm => "06pm"@,
        Hour::SevenPm => "07pm"@,
        Hour::EightPm => "08pm"@,
        Hour::NinePm => "09pm"@,
        Hour::TenPm => "10pm"@,
        Hour::ElevenPm => "11pm"@,
    }
}

/// The slot of an hour of the day given on the 24-hour clock.
pub open spec fn slot_of_day_hour(h: nat) -> Hour {
    if h == 0 {
        Hour::TwelveAm
    } else if h == 1 {
        Hour::OneAm
    } else if h == 2 {
        Hour::TwoAm
    } else if h == 3 {
        Hour::ThreeAm
    } else if h == 4 {
        Hour::FourAm
    } else if h == 5 {
        Hour::FiveAm
    } else if h == 6 {
        Hour::SixAm
    } else if h == 7 {
        Hour::SevenAm
    } else if h == 8 {
        Hour::EightAm
    } else if h == 9 {
        Hour::NineAm
    } else if h == 10 {
        Hour::TenAm
    } else if h == 11 {
        Hour::ElevenAm
    } else if h == 12 {
        Hour::TwelvePm
    } else if h == 13 {
        Hour::OnePm
    } else if h == 14 {
        Hour::TwoPm
    } else if h == 15 {
        Hour::ThreePm
    } else if h == 16 {
        Hour::FourPm
    } else if h == 17 {
        Hour::FivePm
    } else if h == 18 {
        Hour::SixPm
    } else if h == 19 {
        Hour::SevenPm
    } else if h == 20 {
        Hour::EightPm
    } else if h == 21 {
        Hour::NinePm
    } else if h == 22 {
        Hour::TenPm
    } else {
        Hour::ElevenPm
    }
}

/// The hour of the day, on the 24-hour clock, at which a slot starts.
pub open spec fn day_hour_of(x: Hour) -> nat {
    match x {
        Hour::TwelveAm => 0,
        Hour::OneAm => 1,
        Hour::TwoAm => 2,
        Hour::ThreeAm => 3,
        Hour::FourAm => 4,
        Hour::FiveAm => 5,
        Hour::SixAm => 6,
        Hour::SevenAm => 7,
        Hour::EightAm => 8,
        Hour::NineAm => 9,
        Hour::TenAm => 10,
        Hour::ElevenAm => 11,
        Hour::TwelvePm => 12,
        Hour::OnePm => 13,
        Hour::TwoPm => 14,
        Hour::ThreePm => 15,
        Hour::FourPm => 16,
        Hour::FivePm => 17,
        Hour::SixPm => 18,
        Hour::SevenPm => 19,
        Hour::EightPm => 20,
        Hour::NinePm => 21,
        Hour::TenPm => 22,
        Hour::ElevenPm => 23,
    }
}

/// The text that a clock shows for an hour of the day given on the 24-hour
/// clock: the 12-hour clock's hour (1 to 12) in two zero-padded digits,
/// then `am` before noon and `pm` from noon on.
pub open spec fn clock_text(h: nat) -> Seq<char> {
    let h12: nat = if h % 12 == 0 {
        12
    } else {
        h % 12
    };
    let meridiem = if h >= 12 {
        seq!['p', 'm']
    } else {
        seq!['a', 'm']
    };
    seq![digit_char(h12 / 10), digit_char(h12 % 10)] + meridiem
}

/// The characters of each slot's label.
proof fn lemma_hour_labels()
    ensures
        hour_label(Hour::TwelveAm) == seq!['1', '2', 'a', 'm'],
        hour_label(Hour::OneAm) == seq!['0', '1', 'a', 'm'],
        hour_label(Hour::TwoAm) == seq!['0', '2', 'a', 'm'],
        hour_label(Hour::ThreeAm) == seq!['0', '3', 'a', 'm'],
        hour_label(Hour::FourAm) == seq!['0', '4', 'a', 'm'],
        hour_label(Hour::FiveAm) == seq!['0', '5', 'a', 'm'],
        hour_label(Hour::SixAm) == seq!['0', '6', 'a', 'm'],
        hour_label(Hour::SevenAm) == seq!['0', '7', 'a', 'm'],
        hour_label(Hour::EightAm) == seq!['0', '8', 'a', 'm'],
        hour_label(Hour::NineAm) == seq!['0', '9', 'a', 'm'],
        hour_label(Hour::TenAm) == seq!['1', '0', 'a', 'm'],
        hour_label(Hour::ElevenAm) == seq!['1', '1', 'a', 'm'],
        hour_label(Hour::TwelvePm) == seq!['1', '2', 'p', 'm'],
        hour_label(Hour::OnePm) == seq!['0', '1', 'p', 'm'],
        hour_label(Hour::TwoPm) == seq!['0', '2', 'p', 'm'],
        hour_label(Hour::ThreePm) == seq!['0', '3', 'p', 'm'],
        hour_label(Hour::FourPm) == seq!['0', '4', 'p', 'm'],
        hour_label(Hour::FivePm) == seq!['0', '5', 'p', 'm'],
        hour_label(Hour::SixPm) == seq!['0', '6', 'p', 'm'],
        hour_label(Hour::SevenPm) == seq!['0', '7', 'p', 'm'],
        hour_label(Hour::EightPm) == seq!['0', '8', 'p', 'm'],
        hour_label(Hour::NinePm) == seq!['0', '9', 'p', 'm'],
        hour_label(Hour::TenPm) == seq!['1', '0', 'p', 'm'],
        hour_label(Hour::ElevenPm) == seq!['1', '1', 'p', 'm'],
{
    reveal_strlit("12am");
    reveal_strlit("01am");
    reveal_strlit("02am");
    reveal_strlit("03am");
    reveal_strlit("04am");
    reveal_strlit("05am");
    reveal_strlit("06am");
    reveal_strlit("07am");
    reveal_strlit("08am");
    reveal_strlit("09am");
    reveal_strlit("10am");
    reveal_strlit("11am");
    reveal_strlit("12pm");
    reveal_strlit("01pm");
    reveal_strlit("02pm");
    reveal_strlit("03pm");
    reveal_strlit("04pm");
    reveal_strlit("05pm");
    reveal_strlit("06pm");
    reveal_strlit("07pm");
    reveal_strlit("08pm");
    reveal_strlit("09pm");
    reveal_strlit("10pm");
    reveal_strlit("11pm");
    assert(hour_label(Hour::TwelveAm) =~= seq!['1', '2', 'a', 'm']);
    assert(hour_label(Hour::OneAm) =~= seq!['0', '1', 'a', 'm']);
    assert(hour_label(Hour::TwoAm) =~= seq!['0', '2', 'a', 'm']);
    assert(hour_label(Hour::ThreeAm) =~= seq!['0', '3', 'a', 'm']);
    assert(hour_label(Hour::FourAm) =~= seq!['0', '4', 'a', 'm']);
    assert(hour_label(Hour::FiveAm) =~= seq!['0', '5', 'a', 'm']);
    assert(hour_label(Hour::SixAm) =~= seq!['0', '6', 'a', 'm']);
    assert(hour_label(Hour::SevenAm) =~= seq!['0', '7', 'a', 'm']);
    assert(hour_label(Hour::EightAm) =~= seq!['0', '8', 'a', 'm']);
    assert(hour_label(Hour::NineAm) =~= seq!['0', '9', 'a', 'm']);
    assert(hour_label(Hour::TenAm) =~= seq!['1', '0', 'a', 'm']);
    assert(hour_label(Hour::ElevenAm) =~= seq!['1', '1', 'a', 'm']);
    assert(hour_label(Hour::TwelvePm) =~= seq!['1', '2', 'p', 'm']);
    assert(hour_label(Hour::OnePm) =~= seq!['0', '1', 'p', 'm']);
    assert(hour_label(Hour::TwoPm) =~= seq!['0', '2', 'p', 'm']);
    assert(hour_label(Hour::ThreePm) =~= seq!['0', '3', 'p', 'm']);
    assert(hour_label(Hour::FourPm) =~= seq!['0', '4', 'p', 'm']);
    assert(hour_label(Hour::FivePm) =~= seq!['0', '5', 'p', 'm']);
    assert(hour_label(Hour::SixPm) =~= seq!['0', '6', 'p', 'm']);
    assert(hour_label(Hour::SevenPm) =~= seq!['0', '7', 'p', 'm']);
    assert(hour_label(Hour::EightPm) =~= seq!['0', '8', 'p', 'm']);
    assert(hour_label(Hour::NinePm) =~= seq!['0', '9', 'p', 'm']);
    assert(hour_label(Hour::TenPm) =~= seq!['1', '0', 'p', 'm']);
    assert(hour_label(Hour::ElevenPm) =~= seq!['1', '1', 'p', 'm']);
}

/// Each slot's label is the clock's text for its hour.
proof fn lemma_clock_text_is_label(h: nat)
    requires
        h < 24,
    ensures
        hour_label(slot_of_day_hour(h)) == clock_text(h),
{
    lemma_hour_labels();
    assert(hour_label(slot_of_day_hour(h)) =~= clock_text(h));
}

/// No two slots share a label.
proof fn lemma_hour_label_injective(a: Hour, b: Hour)
    ensures
        hour_label(a) == hour_label(b) ==> a == b,
{
    lemma_hour_labels();
    if hour_label(a) == hour_label(b) {
        assert(hour_label(a)[0] == hour_label(b)[0]);
        assert(hour_label(a)[1] == hour_label(b)[1]);
        assert(hour_label(a)[2] == hour_label(b)[2]);
    }
}

impl Hour {
    /// The canonical text of this slot.
    pub fn as_str(&self) -> (r: &'static str)
        ensures
            r@ == hour_label(*self),
    {
        match self {
            Hour::TwelveAm => "12am",
            Hour::OneAm => "01am",
            Hour::TwoAm => "02am",
            Hour::ThreeAm => "03am",
            Hour::FourAm => "04am",
            Hour::FiveAm => "05am",
            Hour::SixAm => "06am",
            Hour::SevenAm => "07am",
            Hour::EightAm => "08am",
            Hour::NineAm => "09am",
            Hour::TenAm => "10am",
            Hour::ElevenAm => "11am",
            Hour::TwelvePm => "12pm",
            Hour::OnePm => "01pm",
            Hour::TwoPm => "02pm",
            Hour::ThreePm => "03pm",
            Hour::FourPm => "04pm",
            Hour::FivePm => "05pm",
            Hour::SixPm => "06pm",
            Hour::SevenPm => "07pm",
            Hour::EightPm => "08pm",
            Hour::NinePm => "09pm",
            Hour::TenPm => "10pm",
            Hour::ElevenPm => "11pm",
        }
    }

    /// The canonical text of this slot, as an owned string.
    pub fn to_string(&self) -> (r: String)
        ensures
            r@ == hour_label(*self),
    {
        String::from_str(self.as_str())
    }

    /// Reads a slot from its canonical text; any other text is refused.
    pub fn from_str(s: &str) -> (r: Result<Hour, ()>)
        ensures
            match r {
                Ok(h) => hour_label(h) == s@,
                Err(_) => forall|h: Hour| hour_label(h) != s@,
            },
    {
        if same_text(s, "12am") {
            return Ok(Hour::TwelveAm);
        }
        if same_text(s, "01am") {
            return Ok(Hour::OneAm);
        }
        if same_text(s, "02am") {
            return Ok(Hour::TwoAm);
        }
        if same_text(s, "03am") {
            return Ok(Hour::ThreeAm);
        }
        if same_text(s, "04am") {
            return Ok(Hour::FourAm);
        }
        if same_text(s, "05am") {
            return Ok(Hour::FiveAm);
        }
        if same_text(s, "06am") {
            return Ok(Hour::SixAm);
        }
        if same_text(s, "07am") {
            return Ok(Hour::SevenAm);
        }
        if same_text(s, "08am") {
            return Ok(Hour::EightAm);
        }
        if same_text(s, "09am") {
            return Ok(Hour::NineAm);
        }
        if same_text(s, "10am") {
            return Ok(Hour::TenAm);
        }
        if same_text(s, "11am") {
            return Ok(Hour::ElevenAm);
        }
        if same_text(s, "12pm") {
            return Ok(Hour::TwelvePm);
        }
        if same_text(s, "01pm") {
            return Ok(Hour::OnePm);
        }
        if same_text(s, "02pm") {
            return Ok(Hour::TwoPm);
        }
        if same_text(s, "03pm") {
            return Ok(Hour::ThreePm);
        }
        if same_text(s, "04pm") {
            return Ok(Hour::FourPm);
        }
        if same_text(s, "05pm") {
            return Ok(Hour::FivePm);
        }
        if same_text(s, "06pm") {
            return Ok(Hour::SixPm);
        }
        if same_text(s, "07pm") {
            return Ok(Hour::SevenPm);
        }
        if same_text(s, "08pm") {
            return Ok(Hour::EightPm);
        }
        if same_text(s, "09pm") {
            return Ok(Hour::NinePm);
        }
        if same_text(s, "10pm") {
            return Ok(Hour::TenPm);
        }
        if same_text(s, "11pm") {
            return Ok(Hour::ElevenPm);
        }
        Err(())
    }
}

/// A reading of the local wall clock, on the 24-hour clock.
#[derive(Clone, Copy, Debug, PartialEq, Eq, Structural)]
pub struct WallTime {
    pub hour: u32,
    pub minute: u32,
    pub second: u32,
}

impl WallTime {
    /// The reading is a time of day.
    pub open spec fn wf(&self) -> bool {
        self.hour < 24 && self.minute < 60 && self.second < 60
    }
}

/// Whether a reading lies at the top of an hour.
pub open spec fn is_boundary(t: WallTime) -> bool {
    t.minute == 0 && t.second == 0
}

/// Relies on `chrono::Local::now` and chrono's `Timelike` accessors: the
/// hour is 0 to 23, the minute and the second 0 to 59 (a leap second reads
/// as 59). chrono panics where the system clock reads before 1970 or the
/// local time-zone data cannot be used; the clock is taken to be sound.
#[verifier::external_body]
fn local_time() -> (t: WallTime)
    ensures
        t.wf(),
{
    let now = chrono::Local::now();
    WallTime { hour: now.hour(), minute: now.minute(), second: now.second() }
}

/// Relies on chrono's `%I%P` formatting of a time of day: the hour on the
/// 12-hour clock in two zero-padded digits, then `am` or `pm` in lower case.
/// `NaiveTime::from_hms_opt` gives a time for every hour below 24.
#[verifier::external_body]
fn clock_label(hour: u32) -> (r: String)
    requires
        hour < 24,
    ensures
        r@ == clock_text(hour as nat),
{
    chrono::NaiveTime::from_hms_opt(hour, 0, 0).unwrap().format("%I%P").to_string()
}

/// The slot of a clock reading: the clock's text for its hour, read back as
/// a slot. The text of a well-formed reading always names a slot.
pub fn slot_at(t: &WallTime) -> (r: Result<Hour, ()>)
    requires
        t.wf(),
    ensures
        r == Ok::<Hour, ()>(slot_of_day_hour(t.hour as nat)),
{
    let label = clock_label(t.hour);
    let r = Hour::from_str(label.as_str());
    proof {
        let want = slot_of_day_hour(t.hour as nat);
        lemma_clock_text_is_label(t.hour as nat);
        if let Ok(h) = r {
            lemma_hour_label_injective(h, want);
        }
    }
    r
}

/// The slot of the current local hour.
pub fn current_slot() -> (r: Result<Hour, ()>)
    ensures
        r is Ok,
{
    let t = local_time();
    slot_at(&t)
}

/// Whether a clock reading lies in the first second of an hour.
pub fn is_slot_boundary_at(t: &WallTime) -> (r: bool)
    ensures
        r == is_boundary(*t),
{
    t.minute == 0 && t.second == 0
}

/// Whether the local clock is in the first second of an hour: the answer
/// of [`is_slot_boundary_at`] on a fresh reading. This is polled: nothing
/// announces the boundary.
pub fn is_slot_boundary() -> bool {
    let t = local_time();
    is_slot_boundary_at(&t)
}

/// The reading of the clock `s` seconds after midnight.
pub open spec fn time_of_day(s: nat) -> WallTime {
    WallTime { hour: (s / 3600) as u32, minute: ((s / 60) % 60) as u32, second: (s % 60) as u32 }
}

/// How many of the first `n` seconds after midnight are at the top of an
/// hour.
pub open spec fn boundaries_before(n: nat) -> nat
    decreases n,
{
    if n == 0 {
        0
    } else {
        boundaries_before((n - 1) as nat) + if is_boundary(time_of_day((n - 1) as nat)) {
            1nat
        } else {
            0nat
        }
    }
}

/// A second of the day is at the top of an hour exactly when it is a whole
/// number of hours after midnight.
proof fn lemma_boundary_second(s: nat)
    ensures
        is_boundary(time_of_day(s)) <==> s % 3600 == 0,
{
    let a = s / 3600;
    let b = s % 3600;
    lemma_fundamental_div_mod(s as int, 3600);
    assert(s / 60 == 60 * a + b / 60) by (nonlinear_arith)
        requires
            s == 3600 * a + b,
            b < 3600,
    ;
    assert(s % 60 == b % 60) by (nonlinear_arith)
        requires
            s == 3600 * a + b,
            b < 3600,
    ;
    assert((s / 60) % 60 == b / 60) by (nonlinear_arith)
        requires
            s / 60 == 60 * a + b / 60,
            b < 3600,
    ;
    assert((b / 60 == 0 && b % 60 == 0) <==> b == 0) by (nonlinear_arith)
        requires
            b < 3600,
    ;
}

/// The count of hour tops among the first `n` seconds.
proof fn lemma_boundaries_before(n: nat)
    ensures
        boundaries_before(n) == (n + 3599) / 3600,
    decreases n,
{
    if n > 0 {
        let m = (n - 1) as nat;
        lemma_boundaries_before(m);
        lemma_boundary_second(m);
        let a = m / 3600;
        let b = m % 3600;
        lemma_fundamental_div_mod(m as int, 3600);
        assert((m + 3599) / 3600 == a + (if b == 0 { 0int } else { 1int })) by (nonlinear_arith)
            requires
                m == 3600 * a + b,
                b < 3600,
        ;
        assert((m + 3600) / 3600 == a + 1) by (nonlinear_arith)
            requires
                m == 3600 * a + b,
                b < 3600,
        ;
    }
}

/// Sweeping the clock across a whole day, second by second, the hour
/// boundary is seen exactly at the top of each hour: 24 times in all.
pub proof fn law_boundaries_in_a_day()
    ensures
        forall|s: nat| s < 86400 ==> (is_boundary(#[trigger] time_of_day(s)) <==> s % 3600 == 0),
        forall|s: nat| s < 86400 ==> (#[trigger] time_of_day(s)).wf(),
        boundaries_before(86400) == 24,
{
    assert forall|s: nat| s < 86400 implies (is_boundary(#[trigger] time_of_day(s)) <==> s % 3600
        == 0) by {
        lemma_boundary_second(s);
    }
    lemma_boundaries_before(86400);
}

/// Every hour of the day has a slot, distinct hours have distinct slots, and
/// each slot's label is the clock's text for its hour; labels name slots one
/// to one, so a label read back as a slot and written again is unchanged.
pub proof fn law_slots_of_the_day()
    ensures
        forall|h: nat| h < 24 ==> hour_label(#[trigger] slot_of_day_hour(h)) == clock_text(h),
        forall|h1: nat, h2: nat|
            h1 < 24 && h2 < 24 && #[trigger] slot_of_day_hour(h1) == #[trigger] slot_of_day_hour(h2)
                ==> h1 == h2,
        forall|x: Hour|
            #![trigger day_hour_of(x)]
            day_hour_of(x) < 24 && slot_of_day_hour(day_hour_of(x)) == x,
        forall|x: Hour, y: Hour| #[trigger] hour_label(x) == #[trigger] hour_label(y) ==> x == y,
{
    assert forall|h: nat| h < 24 implies hour_label(#[trigger] slot_of_day_hour(h)) == clock_text(
        h,
    ) by {
        lemma_clock_text_is_label(h);
    }
    assert forall|x: Hour, y: Hour| #[trigger] hour_label(x) == #[trigger] hour_label(y) implies x
        == y by {
        lemma_hour_label_injective(x, y);
    }
}

} // verus!
