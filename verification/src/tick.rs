//! The discrete part of one tick of the control loop: the brew phase, the
//! pump, the control source and the clock, as the UI's commands change them.
//!
//! The heater power and the target temperature are real numbers; the caller
//! computes them from the measurement and the elapsed time returned here.
use crate::state::{BrewPhase, ControlSource};
use vstd::prelude::*;

verus! {

/// The commands from the UI, as far as they change the discrete state.
#[derive(Copy, Clone, Debug, PartialEq, Eq)]
pub enum StateCommand {
    /// Change the current brew phase.
    SetPhase(BrewPhase),
    /// Turn the pump on or off.
    SetPump(bool),
    /// Switch which sensor the controller reads from.
    SetControlSource(ControlSource),
    /// A command that concerns only the controller (target, algorithm or
    /// configuration).
    Controller,
}

/// The discrete state of the brewery.
#[derive(Copy, Clone, Debug, PartialEq, Eq)]
pub struct BreweryStatus {
    pub phase: BrewPhase,
    pub pump_on: bool,
    pub control_source: ControlSource,
    /// Unix time of the last tick in seconds; zero before the first tick.
    pub timestamp: u64,
}

impl BreweryStatus {
    /// The state before the first tick: idle, pump off, controlling on the
    /// average of the sensors.
    pub fn default() -> (r: BreweryStatus)
        ensures
            r == (BreweryStatus {
                phase: BrewPhase::Idle,
                pump_on: false,
                control_source: ControlSource::Average,
                timestamp: 0,
            }),
    {
        BreweryStatus {
            phase: BrewPhase::Idle,
            pump_on: false,
            control_source: ControlSource::Average,
            timestamp: 0,
        }
    }
}

/// The state after one command.
pub open spec fn apply(s: BreweryStatus, c: StateCommand) -> BreweryStatus {
    match c {
        StateCommand::SetPhase(p) => BreweryStatus { phase: p, ..s },
        StateCommand::SetPump(on) => BreweryStatus { pump_on: on, ..s },
        StateCommand::SetControlSource(src) => BreweryStatus { control_source: src, ..s },
        StateCommand::Controller => s,
    }
}

/// The state after the commands, in order.
pub open spec fn apply_all(s: BreweryStatus, cs: Seq<StateCommand>) -> BreweryStatus
    decreases cs.len(),
{
    if cs.len() == 0 {
        s
    } else {
        apply(apply_all(s, cs.drop_last()), cs.last())
    }
}

/// Seconds since the previous tick at `previous` (zero on the first tick,
/// and when the clock went back).
pub open spec fn elapsed(previous: u64, now: u64) -> u64 {
    if previous > 0 && now >= previous {
        (now - previous) as u64
    } else {
        0
    }
}

/// One tick: applies the commands in order, stamps the state with `now`, and
/// returns it with the seconds elapsed since the previous tick.
pub fn advance(state: &BreweryStatus, commands: &Vec<StateCommand>, now: u64) -> (r: (
    BreweryStatus,
    u64,
))
    ensures
        r.0 == (BreweryStatus { timestamp: now, ..apply_all(*state, commands@) }),
        r.1 == elapsed(state.timestamp, now),
{
    let dt = if state.timestamp > 0 {
        now.saturating_sub(state.timestamp)
    } else {
        0
    };
    let mut s = *state;
    for i in 0..commands.len()
        invariant
            s == apply_all(*state, commands@.take(i as int)),
    {
        proof {
            assert(commands@.take(i + 1).drop_last() =~= commands@.take(i as int));
        }
        match commands[i] {
            StateCommand::SetPhase(p) => {
                s.phase = p;
            },
            StateCommand::SetPump(on) => {
                s.pump_on = on;
            },
            StateCommand::SetControlSource(src) => {
                s.control_source = src;
            },
            StateCommand::Controller => {},
        }
    }
    proof {
        assert(commands@.take(commands@.len() as int) =~= commands@);
    }
    s.timestamp = now;
    (s, dt)
}

/// The last command of a kind wins: after any commands, a final phase (pump,
/// source) command sets the phase (pump, source), and controller commands
/// change nothing in the discrete state.
pub proof fn law_last_command_wins(
    s: BreweryStatus,
    cs: Seq<StateCommand>,
    p: BrewPhase,
    on: bool,
    src: ControlSource,
)
    ensures
        apply_all(s, cs.push(StateCommand::SetPhase(p))).phase == p,
        apply_all(s, cs.push(StateCommand::SetPump(on))).pump_on == on,
        apply_all(s, cs.push(StateCommand::SetControlSource(src))).control_source == src,
        apply_all(s, cs.push(StateCommand::Controller)) == apply_all(s, cs),
{
    assert(cs.push(StateCommand::SetPhase(p)).drop_last() =~= cs);
    assert(cs.push(StateCommand::SetPump(on)).drop_last() =~= cs);
    assert(cs.push(StateCommand::SetControlSource(src)).drop_last() =~= cs);
    assert(cs.push(StateCommand::Controller).drop_last() =~= cs);
}

/// Commands of different kinds do not interfere: a phase command leaves the
/// pump and the source as they were.
pub proof fn law_phase_command_keeps_pump_and_source(s: BreweryStatus, cs: Seq<StateCommand>, p: BrewPhase)
    ensures
        apply_all(s, cs.push(StateCommand::SetPhase(p))).pump_on == apply_all(s, cs).pump_on,
        apply_all(s, cs.push(StateCommand::SetPhase(p))).control_source == apply_all(
            s,
            cs,
        ).control_source,
{
    assert(cs.push(StateCommand::SetPhase(p)).drop_last() =~= cs);
}

/// Controller commands do not touch the discrete state: inserting one at any
/// position of the commands, or removing one from any position, leaves the
/// resulting state unchanged.
pub proof fn law_controller_commands_ignored(s: BreweryStatus, cs: Seq<StateCommand>, i: int)
    ensures
        0 <= i <= cs.len() ==> apply_all(s, cs.insert(i, StateCommand::Controller)) == apply_all(
            s,
            cs,
        ),
        0 <= i < cs.len() && cs[i] == StateCommand::Controller ==> apply_all(s, cs.remove(i))
            == apply_all(s, cs),
{
    if 0 <= i <= cs.len() {
        lemma_insert_controller(s, cs, i);
    }
    if 0 <= i < cs.len() && cs[i] == StateCommand::Controller {
        assert(cs.remove(i).insert(i, StateCommand::Controller) =~= cs);
        lemma_insert_controller(s, cs.remove(i), i);
    }
}

proof fn lemma_insert_controller(s: BreweryStatus, cs: Seq<StateCommand>, i: int)
    requires
        0 <= i <= cs.len(),
    ensures
        apply_all(s, cs.insert(i, StateCommand::Controller)) == apply_all(s, cs),
    decreases cs.len(),
{
    let ins = cs.insert(i, StateCommand::Controller);
    if i == cs.len() {
        assert(ins.drop_last() =~= cs);
    } else {
        assert(ins.drop_last() =~= cs.drop_last().insert(i, StateCommand::Controller));
        assert(ins.last() == cs.last());
        lemma_insert_controller(s, cs.drop_last(), i);
    }
}


/// Each command changes only its own part of the state: a phase command
/// only the phase, a pump command only the pump, a source command only the
/// control source, and a controller command nothing; the time stamp is left
/// to the tick.
pub proof fn law_command_changes_only_its_part(s: BreweryStatus, cs: Seq<StateCommand>, c: StateCommand)
    ensures
        ({
            let before = apply_all(s, cs);
            let after = apply_all(s, cs.push(c));
            &&& after.timestamp == before.timestamp
            &&& c matches StateCommand::SetPhase(p) ==> after.phase == p
                && after.pump_on == before.pump_on && after.control_source == before.control_source
            &&& c matches StateCommand::SetPump(on) ==> after.pump_on == on
                && after.phase == before.phase && after.control_source == before.control_source
            &&& c matches StateCommand::SetControlSource(src) ==> after.control_source == src
                && after.phase == before.phase && after.pump_on == before.pump_on
            &&& c == StateCommand::Controller ==> after == before
        }),
{
    assert(cs.push(c).drop_last() =~= cs);
}

/// With no command the state is kept as it was.
pub proof fn law_no_command_keeps_state(s: BreweryStatus)
    ensures
        apply_all(s, Seq::<StateCommand>::empty()) == s,
{
}

/// The seconds since the previous tick: the difference of the clocks when
/// there was a previous tick and the clock did not go back, else zero.
pub proof fn law_elapsed(previous: u64, now: u64)
    ensures
        previous > 0 && now >= previous ==> (elapsed(previous, now) == now - previous),
        previous == 0 ==> (elapsed(previous, now) == 0),
        now < previous ==> (elapsed(previous, now) == 0),
{
}

} // verus!
