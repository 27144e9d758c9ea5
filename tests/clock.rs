use nookd::{current_slot, is_slot_boundary_at, slot_at, Hour, WallTime};

const LABELS: [&str; 24] = [
    "12am", "01am", "02am", "03am", "04am", "05am", "06am", "07am", "08am", "09am", "10am",
    "11am", "12pm", "01pm", "02pm", "03pm", "04pm", "05pm", "06pm", "07pm", "08pm", "09pm",
    "10pm", "11pm",
];

fn at(hour: u32, minute: u32, second: u32) -> WallTime {
    WallTime { hour, minute, second }
}

#[test]
fn every_hour_of_the_day_has_its_slot() {
    for (h, label) in LABELS.iter().enumerate() {
        let slot = slot_at(&at(h as u32, 30, 0)).unwrap();
        assert_eq!(slot.as_str(), *label);
    }
}

#[test]
fn afternoon_hour_reads_as_two_digits() {
    assert_eq!(slot_at(&at(15, 0, 0)), Ok(Hour::ThreePm));
    assert_eq!(slot_at(&at(15, 0, 0)).unwrap().to_string(), "03pm");
}

#[test]
fn midnight_and_noon_are_twelve() {
    assert_eq!(slot_at(&at(0, 0, 0)), Ok(Hour::TwelveAm));
    assert_eq!(slot_at(&at(12, 59, 59)), Ok(Hour::TwelvePm));
    assert_eq!(slot_at(&at(23, 0, 0)), Ok(Hour::ElevenPm));
}

#[test]
fn distinct_hours_give_distinct_slots() {
    for a in 0..24u32 {
        for b in 0..24u32 {
            let sa = slot_at(&at(a, 0, 0)).unwrap();
            let sb = slot_at(&at(b, 0, 0)).unwrap();
            assert_eq!(sa == sb, a == b);
        }
    }
}

#[test]
fn slot_labels_round_trip() {
    for label in LABELS.iter() {
        let h = Hour::from_str(label).unwrap();
        assert_eq!(h.as_str(), *label);
        assert_eq!(Hour::from_str(h.as_str()), Ok(h));
    }
}

#[test]
fn other_texts_are_not_slots() {
    for text in ["3pm", "13pm", "00am", "03PM", "morning", "night", "day", "evening", "", "03pm "] {
        assert_eq!(Hour::from_str(text), Err(()));
    }
}

#[test]
fn current_slot_always_succeeds() {
    assert!(current_slot().is_ok());
}

#[test]
fn boundary_is_the_first_second_of_the_hour() {
    assert!(is_slot_boundary_at(&at(7, 0, 0)));
    assert!(!is_slot_boundary_at(&at(7, 0, 1)));
    assert!(!is_slot_boundary_at(&at(7, 1, 0)));
    assert!(!is_slot_boundary_at(&at(7, 59, 59)));
}

#[test]
fn a_day_holds_twenty_four_boundaries() {
    let mut count = 0;
    for s in 0..86400u32 {
        let t = at(s / 3600, (s / 60) % 60, s % 60);
        if is_slot_boundary_at(&t) {
            assert_eq!(s % 3600, 0);
            count += 1;
        }
    }
    assert_eq!(count, 24);
}
