//! Subjects of the controllers' messages.
use crate::pub_sub::{compose_subject, ClientId, Subject};
use vstd::prelude::*;

verus! {

/// The subject on which controller `id` receives new targets.
pub fn controller_set_target_subject(id: &ClientId) -> (r: Subject)
    ensures
        r.0@ == "controller."@ + id.0@ + ".set_target"@,
{
    compose_subject("controller.", id, ".set_target")
}

/// What a controller publishes, without the payload.
#[derive(Clone, Debug)]
pub enum ControllerPubTopic {
    /// A new signal for its actor.
    SetActorSignal,
    /// A request that its actor turn off.
    TurnOffActor,
    /// The status of controller `id`.
    Status { id: ClientId },
}

impl ControllerPubTopic {
    /// The subject of the message; `msg_id` is the actor's id for the
    /// messages to the actor.
    pub fn subject(&self, msg_id: &ClientId) -> (r: Subject)
        ensures
            match self {
                ControllerPubTopic::SetActorSignal => r.0@ == "actor."@ + msg_id.0@
                    + ".set_signal"@,
                ControllerPubTopic::TurnOffActor => r.0@ == "actor."@ + msg_id.0@ + ".turn_off"@,
                ControllerPubTopic::Status { id } => r.0@ == "controller."@ + id.0@ + ".status"@,
            },
    {
        match self {
            ControllerPubTopic::SetActorSignal => compose_subject("actor.", msg_id, ".set_signal"),
            ControllerPubTopic::TurnOffActor => compose_subject("actor.", msg_id, ".turn_off"),
            ControllerPubTopic::Status { id } => compose_subject("controller.", id, ".status"),
        }
    }
}

/// The subject on which sensor `id` publishes its measurements.
pub fn sensor_measurement_subject(id: &ClientId) -> (r: Subject)
    ensures
        r.0@ == "sensor."@ + id.0@ + ".measurement"@,
{
    compose_subject("sensor.", id, ".measurement")
}

/// A buzzer signal pattern.
#[derive(Copy, Clone, Debug, PartialEq, Eq)]
pub enum SignalPattern {
    Constant,
    Pulse,
    Stop,
}

/// A message to a buzzer.
#[derive(Copy, Clone, Debug, PartialEq, Eq)]
pub enum BuzzerSubMsg {
    Buzz(SignalPattern),
}

/// The subject on which buzzer `id` receives patterns.
pub fn buzzer_subject(id: &ClientId) -> (r: Subject)
    ensures
        r.0@ == "buzzer."@ + id.0@ + ".buzz"@,
{
    compose_subject("buzzer.", id, ".buzz")
}

} // verus!
