use bryggio::pub_sub::ClientId;
use bryggio::registry::ActiveClients;
use bryggio::supervisor::{
    command_error_message, command_reply, start_step, stop_step, switch_step,
    ControllerCommandError,
};

fn id(s: &str) -> ClientId {
    ClientId::from_text(s)
}

fn controller_ids(clients: &ActiveClients<u8>) -> Vec<(String, u8)> {
    clients.controllers.entries().iter().map(|(i, c)| (i.0.clone(), *c)).collect()
}

#[test]
fn start_registers_new_controller() {
    let mut clients: ActiveClients<u8> = ActiveClients::new();
    assert!(matches!(start_step(&mut clients, id("mash"), 1, Some("ctrl")), Ok("ctrl")));
    assert_eq!(controller_ids(&clients), vec![(String::from("mash"), 1)]);
}

#[test]
fn start_refuses_active_controller() {
    let mut clients: ActiveClients<u8> = ActiveClients::new();
    start_step(&mut clients, id("mash"), 1, Some(())).unwrap();
    let r = start_step(&mut clients, id("mash"), 2, Some(()));
    assert!(matches!(r, Err(ControllerCommandError::AlreadyActive(ref e)) if e.0 == "mash"));
    assert_eq!(controller_ids(&clients), vec![(String::from("mash"), 1)]);
}

#[test]
fn start_without_controller_changes_nothing() {
    let mut clients: ActiveClients<u8> = ActiveClients::new();
    let r = start_step::<u8, ()>(&mut clients, id("mash"), 1, None);
    assert!(matches!(r, Err(ControllerCommandError::Controller)));
    assert!(clients.controllers.entries().is_empty());
}

#[test]
fn stop_hands_back_config() {
    let mut clients: ActiveClients<u8> = ActiveClients::new();
    start_step(&mut clients, id("mash"), 1, Some(())).unwrap();
    start_step(&mut clients, id("boil"), 2, Some(())).unwrap();
    assert!(matches!(stop_step(&mut clients, &id("mash")), Ok(1)));
    assert_eq!(controller_ids(&clients), vec![(String::from("boil"), 2)]);
    let r = stop_step(&mut clients, &id("mash"));
    assert!(matches!(r, Err(ControllerCommandError::Missing(ref e)) if e.0 == "mash"));
}

#[test]
fn switch_replaces_controller() {
    let mut clients: ActiveClients<u8> = ActiveClients::new();
    start_step(&mut clients, id("mash"), 1, Some(())).unwrap();
    start_step(&mut clients, id("boil"), 2, Some(())).unwrap();
    assert!(matches!(switch_step(&mut clients, id("mash"), 5, Some(7u32)), Ok(7)));
    assert_eq!(
        controller_ids(&clients),
        vec![(String::from("boil"), 2), (String::from("mash"), 5)]
    );
}

#[test]
fn switch_of_inactive_controller_is_refused() {
    let mut clients: ActiveClients<u8> = ActiveClients::new();
    start_step(&mut clients, id("boil"), 2, Some(())).unwrap();
    let r = switch_step(&mut clients, id("mash"), 5, Some(()));
    assert!(matches!(r, Err(ControllerCommandError::Missing(ref e)) if e.0 == "mash"));
    assert_eq!(controller_ids(&clients), vec![(String::from("boil"), 2)]);
}

#[test]
fn failed_switch_leaves_controller_stopped() {
    let mut clients: ActiveClients<u8> = ActiveClients::new();
    start_step(&mut clients, id("mash"), 1, Some(())).unwrap();
    let r = switch_step::<u8, ()>(&mut clients, id("mash"), 5, None);
    assert!(matches!(r, Err(ControllerCommandError::Controller)));
    assert!(clients.controllers.entries().is_empty());
}

#[test]
fn replies() {
    let mash = id("mash");
    assert_eq!(command_reply(true, &mash, &Ok(())), "Controller 'mash' started");
    assert_eq!(command_reply(false, &mash, &Ok(())), "Controller 'mash' stopped");
    assert_eq!(
        command_reply(true, &mash, &Err(ControllerCommandError::AlreadyActive(id("mash")))),
        "Failed starting controller 'mash': 'mash' is already an active client"
    );
    assert_eq!(
        command_reply(false, &mash, &Err(ControllerCommandError::Missing(id("mash")))),
        "Failed stopping controller 'mash': 'mash' is not an active client"
    );
    assert_eq!(
        command_reply(true, &mash, &Err(ControllerCommandError::Controller)),
        "Failed starting controller 'mash': Control error"
    );
    assert_eq!(
        command_error_message(&ControllerCommandError::Kill(String::from("timed out"))),
        "timed out"
    );
}
