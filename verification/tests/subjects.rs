use bryggio::actor::{
    actor_current_signal_subject, actor_set_signal_subject, actor_turn_off_subject, check_switch,
    ActorSubject, SwitchRefusal,
};
use bryggio::control::{
    buzzer_subject, controller_set_target_subject, sensor_measurement_subject, ControllerPubTopic,
};
use bryggio::hardware::GpioState;
use bryggio::pub_sub::{ClientId, MessageParseError, PubSubMsg};
use bryggio::registry::ActiveClientsList;
use bryggio::supervisor::{SupervisorCommand, SupervisorPubMsg};
use bryggio::time::TimeStamp;

fn id(s: &str) -> ClientId {
    ClientId::from_text(s)
}

#[test]
fn actor_subjects() {
    assert_eq!(actor_current_signal_subject(&id("mash")).0, "actor.mash.current_signal");
    assert_eq!(actor_set_signal_subject(&id("mash")).0, "actor.mash.set_signal");
    assert_eq!(actor_turn_off_subject(&id("*")).0, "actor.*.turn_off");
}

#[test]
fn actor_subject_kinds() {
    assert_eq!(ActorSubject::from_subject("actor.mash.set_signal").unwrap(), ActorSubject::SetSignal);
    assert_eq!(ActorSubject::from_subject("actor.mash.turn_off").unwrap(), ActorSubject::TurnOff);
    match ActorSubject::from_subject("actor.mash.explode") {
        Err(MessageParseError::InvalidSubject(s)) => assert_eq!(s.0, "actor.mash.explode"),
        other => panic!("unexpected {:?}", other),
    }
    let sub = actor_turn_off_subject(&id("boil"));
    assert_eq!(ActorSubject::from_subject(&sub.0).unwrap(), ActorSubject::TurnOff);
}

#[test]
fn controller_and_sensor_subjects() {
    assert_eq!(controller_set_target_subject(&id("mash")).0, "controller.mash.set_target");
    assert_eq!(
        ControllerPubTopic::SetActorSignal.subject(&id("heater")).0,
        "actor.heater.set_signal"
    );
    assert_eq!(ControllerPubTopic::TurnOffActor.subject(&id("heater")).0, "actor.heater.turn_off");
    assert_eq!(
        ControllerPubTopic::Status { id: id("mash") }.subject(&id("heater")).0,
        "controller.mash.status"
    );
    assert_eq!(sensor_measurement_subject(&id("*")).0, "sensor.*.measurement");
    assert_eq!(buzzer_subject(&id("b")).0, "buzzer.b.buzz");
}

#[test]
fn supervisor_command_subjects_round_trip() {
    for c in [
        SupervisorCommand::StartController,
        SupervisorCommand::StopController,
        SupervisorCommand::SwitchController,
        SupervisorCommand::ListActiveClients,
        SupervisorCommand::Stop,
    ] {
        assert_eq!(SupervisorCommand::from_subject(&c.subject().0).unwrap(), c);
    }
    assert_eq!(SupervisorCommand::Stop.subject().0, "command.stop");
    assert!(matches!(
        SupervisorCommand::from_subject("command.restart"),
        Err(MessageParseError::InvalidSubject(_))
    ));
}

#[test]
fn supervisor_publication_subjects() {
    let kill: SupervisorPubMsg<()> = SupervisorPubMsg::KillClient { client_id: id("mash") };
    assert_eq!(kill.subject().0, "supervisor.kill.mash");
    let list: SupervisorPubMsg<()> = SupervisorPubMsg::ActiveClients(ActiveClientsList {
        sensors: Vec::new(),
        actors: Vec::new(),
        controllers: Vec::new(),
        misc: Vec::new(),
    });
    assert_eq!(list.subject().0, "supervisor.active_clients");
}

#[test]
fn empty_message() {
    assert_eq!(PubSubMsg::empty().0, "");
}

#[test]
fn switch_checks() {
    let t0 = TimeStamp(1_000);
    assert_eq!(
        check_switch(GpioState::High, GpioState::High, t0, None, TimeStamp(5_000)),
        Err(SwitchRefusal::ChangingToAlreadyActiveState)
    );
    assert_eq!(
        check_switch(GpioState::High, GpioState::Low, t0, Some(TimeStamp(500)), TimeStamp(1_200)),
        Err(SwitchRefusal::TimeOut(TimeStamp(300)))
    );
    assert_eq!(
        check_switch(GpioState::High, GpioState::Low, t0, Some(TimeStamp(500)), TimeStamp(1_500)),
        Ok(())
    );
    assert_eq!(check_switch(GpioState::Low, GpioState::High, t0, None, t0), Ok(()));
}
