use bryggio::state::{BrewPhase, ControlSource};
use bryggio::tick::{advance, BreweryStatus, StateCommand};

#[test]
fn first_tick_has_no_elapsed_time() {
    let s = BreweryStatus::default();
    let (next, dt) = advance(&s, &Vec::new(), 1_000);
    assert_eq!(dt, 0);
    assert_eq!(next.timestamp, 1_000);
    assert_eq!(next.phase, BrewPhase::Idle);
}

#[test]
fn elapsed_since_previous_tick() {
    let mut s = BreweryStatus::default();
    s.timestamp = 1_000;
    assert_eq!(advance(&s, &Vec::new(), 1_003).1, 3);
    assert_eq!(advance(&s, &Vec::new(), 900).1, 0);
}

#[test]
fn commands_apply_in_order() {
    let s = BreweryStatus::default();
    let cmds = vec![
        StateCommand::SetPhase(BrewPhase::Prep),
        StateCommand::SetPump(true),
        StateCommand::Controller,
        StateCommand::SetPhase(BrewPhase::Mashing),
        StateCommand::SetControlSource(ControlSource::Bottom),
    ];
    let (next, _) = advance(&s, &cmds, 5);
    assert_eq!(
        next,
        BreweryStatus {
            phase: BrewPhase::Mashing,
            pump_on: true,
            control_source: ControlSource::Bottom,
            timestamp: 5
        }
    );
}

#[test]
fn controller_commands_anywhere_change_nothing() {
    let s = BreweryStatus::default();
    let plain = vec![StateCommand::SetPhase(BrewPhase::Mashing), StateCommand::SetPump(true)];
    let mixed = vec![
        StateCommand::Controller,
        StateCommand::SetPhase(BrewPhase::Mashing),
        StateCommand::Controller,
        StateCommand::SetPump(true),
    ];
    assert_eq!(advance(&s, &plain, 10), advance(&s, &mixed, 10));
}
