//! Actors (heaters, pumps): their configuration records, the subjects of
//! the messages they exchange, and when a binary actor may switch its pin.
use crate::pub_sub::{compose_subject, ClientId, MessageParseError, Subject};
use crate::text::{nth_field, same_text, split_on};
use crate::hardware::GpioState;
use crate::time::{cool_down_left, time_out_check, TimeStamp};
use vstd::prelude::*;

verus! {

/// The kind of a configured actor.
#[derive(Clone, Debug)]
pub enum ActorType {
    /// A heater driven by a pseudo-PWM GPIO pin, with an optional cool-down
    /// between switches.
    SimpleGpio { pin_number: u32, time_out: Option<TimeStamp> },
}

/// An actor of the hardware configuration.
#[derive(Clone, Debug)]
pub struct ActorConfig {
    pub id: ClientId,
    pub type_: ActorType,
}

/// The subject on which actor `id` reports its current signal.
pub fn actor_current_signal_subject(id: &ClientId) -> (r: Subject)
    ensures
        r.0@ == "actor."@ + id.0@ + ".current_signal"@,
{
    compose_subject("actor.", id, ".current_signal")
}

/// The subject on which actor `id` receives new signals.
pub fn actor_set_signal_subject(id: &ClientId) -> (r: Subject)
    ensures
        r.0@ == "actor."@ + id.0@ + ".set_signal"@,
{
    compose_subject("actor.", id, ".set_signal")
}

/// The subject on which actor `id` is asked to turn off.
pub fn actor_turn_off_subject(id: &ClientId) -> (r: Subject)
    ensures
        r.0@ == "actor."@ + id.0@ + ".turn_off"@,
{
    compose_subject("actor.", id, ".turn_off")
}

/// The kind of a message received by an actor, read from its subject.
#[derive(Copy, Clone, Debug, PartialEq, Eq)]
pub enum ActorSubject {
    /// `actor.<id>.set_signal`: the payload is the new signal.
    SetSignal,
    /// `actor.<id>.turn_off`.
    TurnOff,
}

/// The kind named by the third field of an actor subject, if any.
pub open spec fn actor_subject_kind(field: Seq<char>) -> Option<ActorSubject> {
    if field == "set_signal"@ {
        Some(ActorSubject::SetSignal)
    } else if field == "turn_off"@ {
        Some(ActorSubject::TurnOff)
    } else {
        None
    }
}

impl ActorSubject {
    /// Reads the kind of an actor message from its subject,
    /// `actor.<id>.<kind>`, which has at least three fields.
    pub fn from_subject(subject: &str) -> (r: Result<ActorSubject, MessageParseError>)
        requires
            split_on(subject@, '.').len() >= 3,
        ensures
            match r {
                Ok(k) => actor_subject_kind(split_on(subject@, '.')[2]) == Some(k),
                Err(e) => {
                    &&& actor_subject_kind(split_on(subject@, '.')[2]) is None
                    &&& e matches MessageParseError::InvalidSubject(s) && s.0@ == subject@
                },
            },
    {
        match nth_field(subject, '.', 2) {
            Some(kind) => {
                if same_text(kind.as_str(), "set_signal") {
                    Ok(ActorSubject::SetSignal)
                } else if same_text(kind.as_str(), "turn_off") {
                    Ok(ActorSubject::TurnOff)
                } else {
                    Err(MessageParseError::InvalidSubject(Subject::from_text(subject)))
                }
            },
            None => Err(MessageParseError::InvalidSubject(Subject::from_text(subject))),
        }
    }
}

/// Why a binary actor refuses to switch its pin.
#[derive(Copy, Clone, Debug, PartialEq, Eq)]
pub enum SwitchRefusal {
    /// The pin is already at the requested level.
    ChangingToAlreadyActiveState,
    /// The cool-down after the last switch has this much time left.
    TimeOut(TimeStamp),
}

/// Whether a binary actor whose pin is at `current`, and which last switched
/// at `switched_at` (not after `now`), may drive its pin to `requested`: not
/// to the level it already has, and not before its cool-down has passed.
pub fn check_switch(
    requested: GpioState,
    current: GpioState,
    switched_at: TimeStamp,
    time_out: Option<TimeStamp>,
    now: TimeStamp,
) -> (r: Result<(), SwitchRefusal>)
    requires
        switched_at.0 <= now.0,
    ensures
        requested == current ==> r == Err::<(), SwitchRefusal>(
            SwitchRefusal::ChangingToAlreadyActiveState,
        ),
        requested != current ==> match cool_down_left(switched_at.0, time_out, now.0) {
            Some(left) => r == Err::<(), SwitchRefusal>(SwitchRefusal::TimeOut(TimeStamp(left))),
            None => r is Ok,
        },
{
    if requested == current {
        return Err(SwitchRefusal::ChangingToAlreadyActiveState);
    }
    match time_out_check(switched_at, time_out, now) {
        Ok(()) => Ok(()),
        Err(left) => Err(SwitchRefusal::TimeOut(left)),
    }
}

/// Without a cool-down an actor may always switch to the other level, and
/// with one it may once the cool-down has passed.
pub proof fn law_switch_allowed_after_cool_down(
    switched_at: u128,
    time_out: Option<TimeStamp>,
    now: u128,
)
    requires
        switched_at <= now,
        time_out is None || now - switched_at >= (time_out->0).0,
    ensures
        cool_down_left(switched_at, time_out, now) is None,
{
}

/// A message sent on the set-signal or turn-off subject of actor `id`
/// (an id without dots) is read back as that kind of message.
pub proof fn law_actor_subject_round_trip(id: Seq<char>)
    requires
        !id.contains('.'),
    ensures
        split_on("actor."@ + id + ".set_signal"@, '.').len() >= 3,
        actor_subject_kind(split_on("actor."@ + id + ".set_signal"@, '.')[2]) == Some(
            ActorSubject::SetSignal,
        ),
        split_on("actor."@ + id + ".turn_off"@, '.').len() >= 3,
        actor_subject_kind(split_on("actor."@ + id + ".turn_off"@, '.')[2]) == Some(
            ActorSubject::TurnOff,
        ),
{
    reveal_strlit("actor.");
    reveal_strlit(".set_signal");
    reveal_strlit(".turn_off");
    reveal_strlit("set_signal");
    reveal_strlit("turn_off");
    let actor = seq!['a', 'c', 't', 'o', 'r'];
    let set = "set_signal"@;
    let off = "turn_off"@;
    assert(!actor.contains('.')) by {
        if actor.contains('.') {
            let i = choose|i: int| 0 <= i < actor.len() && actor[i] == '.';
            assert(false);
        }
    }
    assert(!set.contains('.')) by {
        if set.contains('.') {
            let i = choose|i: int| 0 <= i < set.len() && set[i] == '.';
            assert(false);
        }
    }
    assert(!off.contains('.')) by {
        if off.contains('.') {
            let i = choose|i: int| 0 <= i < off.len() && off[i] == '.';
            assert(false);
        }
    }
    assert("actor."@ + id + ".set_signal"@ =~= actor + seq!['.'] + (id + seq!['.'] + set));
    assert("actor."@ + id + ".turn_off"@ =~= actor + seq!['.'] + (id + seq!['.'] + off));
    crate::text::lemma_split_on_field_then_rest(actor, id + seq!['.'] + set, '.');
    crate::text::lemma_split_on_field_then_rest(id, set, '.');
    crate::text::lemma_split_on_no_sep(set, '.');
    crate::text::lemma_split_on_field_then_rest(actor, id + seq!['.'] + off, '.');
    crate::text::lemma_split_on_field_then_rest(id, off, '.');
    crate::text::lemma_split_on_no_sep(off, '.');
    assert(off != set) by {
        assert(off.len() != set.len());
    }
}


/// The kinds of actor messages by the last field of their subject:
/// `set_signal` and `turn_off`, and no other.
pub proof fn law_actor_subject_kinds(field: Seq<char>)
    ensures
        actor_subject_kind("set_signal"@) == Some(ActorSubject::SetSignal),
        actor_subject_kind("turn_off"@) == Some(ActorSubject::TurnOff),
        field != "set_signal"@ && field != "turn_off"@ ==> (actor_subject_kind(field)
            == None::<ActorSubject>),
{
    reveal_strlit("set_signal");
    reveal_strlit("turn_off");
    assert("set_signal"@.len() != "turn_off"@.len());
}

} // verus!
