use bryggio::readings::{readings_to_serve, should_keep};
use bryggio::state::{is_brewing, BrewPhase};

#[test]
fn recent_readings_all_kept() {
    assert!(should_keep(10_001, 10_500));
    assert!(should_keep(10_500, 10_500));
    assert!(should_keep(9_901, 10_500));
}

#[test]
fn medium_age_readings_every_ten_seconds() {
    assert!(should_keep(9_000, 10_000));
    assert!(!should_keep(9_001, 10_000));
    assert!(should_keep(6_410, 10_000));
}

#[test]
fn old_readings_every_minute() {
    assert!(should_keep(6_000, 10_000));
    assert!(!should_keep(6_010, 10_000 + 3_600));
    assert!(should_keep(0, 100_000));
}

#[test]
fn age_u64_max_falls_in_no_tier() {
    assert!(!should_keep(0, u64::MAX));
}

#[test]
fn future_readings_count_as_new() {
    assert!(should_keep(20_003, 10_000));
}

#[test]
fn nothing_served_outside_a_brew() {
    let ts = vec![1, 2, 3];
    assert_eq!(readings_to_serve(BrewPhase::Idle, &ts), vec![false, false, false]);
    assert_eq!(readings_to_serve(BrewPhase::Done, &ts), vec![false, false, false]);
    assert_eq!(readings_to_serve(BrewPhase::Mashing, &ts), vec![true, true, true]);
}

#[test]
fn served_mask_thins_against_last_reading() {
    let ts = vec![0, 5, 60, 3_605, 3_610, 4_000];
    assert_eq!(
        readings_to_serve(BrewPhase::Boiling, &ts),
        vec![true, false, true, true, true, true]
    );
    let ts = vec![0, 5, 60, 3_605, 3_610, 8_000];
    assert_eq!(
        readings_to_serve(BrewPhase::Boiling, &ts),
        vec![true, false, true, false, false, true]
    );
    assert_eq!(readings_to_serve(BrewPhase::Boiling, &Vec::new()), Vec::<bool>::new());
}

#[test]
fn brewing_phases() {
    assert!(!is_brewing(BrewPhase::Idle));
    assert!(is_brewing(BrewPhase::Prep));
    assert!(is_brewing(BrewPhase::Cooling));
    assert!(!is_brewing(BrewPhase::Done));
}

#[test]
fn thinning_never_brings_back_a_reading() {
    for ts in [0u64, 5, 10, 60, 65, 120, 3_000] {
        for later in [100u64, 700, 4_000, 10_000] {
            if should_keep(ts, later) {
                for earlier in [0u64, 50, 100, 650, 3_700] {
                    if earlier <= later {
                        assert!(should_keep(ts, earlier));
                    }
                }
            }
        }
    }
}
