use bryggio::pub_sub::ClientId;
use bryggio::registry::{ActiveClients, ClientRegistry, ClientRegistryError};

fn id(s: &str) -> ClientId {
    ClientId::from_text(s)
}

#[test]
fn insert_rejects_active_id() {
    let mut r: ClientRegistry<u32> = ClientRegistry::new();
    assert!(r.insert(id("mash"), 1).is_ok());
    assert_eq!(r.insert(id("mash"), 2), Err(ClientRegistryError::AlreadyActive(id("mash"))));
    assert_eq!(r.len(), 1);
    assert_eq!(r.entries()[0].1, 1);
}

#[test]
fn remove_hands_back_config() {
    let mut r: ClientRegistry<u32> = ClientRegistry::new();
    r.insert(id("a"), 1).unwrap();
    r.insert(id("b"), 2).unwrap();
    r.insert(id("c"), 3).unwrap();
    assert_eq!(r.remove(&id("b")), Ok(2));
    assert!(!r.contains(&id("b")));
    assert!(r.contains(&id("a")) && r.contains(&id("c")));
    assert_eq!(r.remove(&id("b")), Err(ClientRegistryError::Missing(id("b"))));
    let ids: Vec<&str> = r.entries().iter().map(|e| e.0.as_str()).collect();
    assert_eq!(ids, vec!["a", "c"]);
}

#[test]
fn remove_after_insert_restores() {
    let mut r: ClientRegistry<u32> = ClientRegistry::new();
    r.insert(id("a"), 1).unwrap();
    r.insert(id("new"), 9).unwrap();
    assert_eq!(r.remove(&id("new")), Ok(9));
    assert_eq!(r.entries(), &vec![(id("a"), 1)]);
}

#[test]
fn active_clients_listing() {
    let mut clients: ActiveClients<u8> = ActiveClients::new();
    clients.controllers.insert(id("mash"), 3).unwrap();
    clients.misc.insert(id("log"), ()).unwrap();
    assert!(clients.contains_id(&id("mash")));
    assert!(clients.contains_id(&id("log")));
    assert!(!clients.contains_id(&id("boil")));
    let list = clients.list();
    assert_eq!(list.controllers, vec![(id("mash"), 3)]);
    assert_eq!(list.misc, vec![id("log")]);
    assert!(list.sensors.is_empty() && list.actors.is_empty());
}

#[test]
fn listing_pairs_each_id_with_its_config() {
    let mut clients: ActiveClients<u8> = ActiveClients::new();
    clients.controllers.insert(id("mash"), 3).unwrap();
    clients.controllers.insert(id("boil"), 7).unwrap();
    let list = clients.list();
    assert_eq!(list.controllers, vec![(id("mash"), 3), (id("boil"), 7)]);
}
