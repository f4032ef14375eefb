//! The supervisor's registry of active clients: which sensors, actors,
//! controllers and other clients run, each under a unique id, with the
//! configuration it was started from.
use crate::actor::ActorConfig;
use crate::config::all_distinct;
use crate::pub_sub::ClientId;
use crate::sensor::SensorConfig;
use vstd::prelude::*;

verus! {

/// Why a registry change was refused.
#[derive(Clone, Debug, PartialEq, Eq)]
pub enum ClientRegistryError {
    /// The id is not an active client.
    Missing(ClientId),
    /// The id is already an active client.
    AlreadyActive(ClientId),
}

/// Active clients of one kind, each with its configuration, in the order in
/// which they were started.
pub struct ClientRegistry<C> {
    entries: Vec<(ClientId, C)>,
}

/// The ids of a sequence of entries.
pub open spec fn entry_ids<C>(entries: Seq<(ClientId, C)>) -> Seq<Seq<char>> {
    entries.map_values(|e: (ClientId, C)| e.0.0@)
}

/// Whether `id` is among the ids of `entries`.
pub open spec fn has_id<C>(entries: Seq<(ClientId, C)>, id: Seq<char>) -> bool {
    exists|i: int| 0 <= i < entries.len() && #[trigger] entries[i].0.0@ == id
}

/// `copies` holds, in the same order, the entries of `entries`: the same ids,
/// each with a clone of the configuration that the id has in `entries`.
pub open spec fn copies_of<C: Clone>(copies: Seq<(ClientId, C)>, entries: Seq<(ClientId, C)>) -> bool {
    &&& copies.len() == entries.len()
    &&& forall|i: int|
        0 <= i < entries.len() ==> #[trigger] copies[i].0.0@ == entries[i].0.0@ && cloned::<C>(
            entries[i].1,
            copies[i].1,
        )
}

impl<C> ClientRegistry<C> {
    /// The entries, oldest first.
    pub closed spec fn view(&self) -> Seq<(ClientId, C)> {
        self.entries@
    }

    /// No id occurs twice.
    pub open spec fn wf(&self) -> bool {
        all_distinct(entry_ids(self.view()))
    }

    /// Whether `id` is active.
    pub open spec fn has(&self, id: Seq<char>) -> bool {
        has_id(self.view(), id)
    }

    /// An empty registry.
    pub fn new() -> (r: ClientRegistry<C>)
        ensures
            r.view() == Seq::<(ClientId, C)>::empty(),
            r.wf(),
    {
        ClientRegistry { entries: Vec::new() }
    }

    /// The position of `id`, if it is active.
    fn position(&self, id: &ClientId) -> (r: Option<usize>)
        ensures
            match r {
                Some(i) => i < self.view().len() && self.view()[i as int].0.0@ == id.0@,
                None => !self.has(id.0@),
            },
    {
        for i in 0..self.entries.len()
            invariant
                forall|k: int| 0 <= k < i ==> #[trigger] self.entries@[k].0.0@ != id.0@,
        {
            if self.entries[i].0.same(id) {
                return Some(i);
            }
        }
        None
    }

    /// Whether `id` is active.
    pub fn contains(&self, id: &ClientId) -> (r: bool)
        ensures
            r == self.has(id.0@),
    {
        self.position(id).is_some()
    }

    /// The number of active clients.
    pub fn len(&self) -> (r: usize)
        ensures
            r == self.view().len(),
    {
        self.entries.len()
    }

    /// The entries, oldest first.
    pub fn entries(&self) -> (r: &Vec<(ClientId, C)>)
        ensures
            r@ == self.view(),
    {
        &self.entries
    }

    /// Registers client `id` started from `config`; refused when `id` is
    /// already active.
    pub fn insert(&mut self, id: ClientId, config: C) -> (r: Result<(), ClientRegistryError>)
        requires
            old(self).wf(),
        ensures
            final(self).wf(),
            old(self).has(id.0@) ==> (r matches Err(ClientRegistryError::AlreadyActive(e)) && e.0@
                == id.0@) && final(self).view() == old(self).view(),
            !old(self).has(id.0@) ==> r is Ok && final(self).view() == old(self).view().push(
                (id, config),
            ),
    {
        if self.contains(&id) {
            return Err(ClientRegistryError::AlreadyActive(id));
        }
        let ghost before = self.entries@;
        self.entries.push((id, config));
        proof {
            assert(entry_ids(self.entries@) =~= entry_ids(before).push(id.0@));
            assert forall|i: int, j: int|
                0 <= i < j < entry_ids(self.entries@).len() implies entry_ids(self.entries@)[i]
                != entry_ids(self.entries@)[j] by {
                if j == before.len() {
                    assert(before[i].0.0@ == entry_ids(before)[i]);
                }
            }
        }
        Ok(())
    }

    /// Unregisters client `id` and hands back its configuration; refused when
    /// `id` is not active.
    pub fn remove(&mut self, id: &ClientId) -> (r: Result<C, ClientRegistryError>)
        requires
            old(self).wf(),
        ensures
            final(self).wf(),
            !old(self).has(id.0@) ==> (r matches Err(ClientRegistryError::Missing(e)) && e.0@
                == id.0@) && final(self).view() == old(self).view(),
            old(self).has(id.0@) ==> exists|i: int|
                0 <= i < old(self).view().len() && old(self).view()[i].0.0@ == id.0@ && r
                    == Ok::<C, ClientRegistryError>(old(self).view()[i].1) && final(self).view()
                    == old(self).view().remove(i),
            !final(self).has(id.0@),
    {
        match self.position(id) {
            None => Err(ClientRegistryError::Missing(id.duplicate())),
            Some(i) => {
                let ghost before = self.entries@;
                let (_, config) = self.entries.remove(i);
                proof {
                    assert(self.entries@ == before.remove(i as int));
                    assert forall|a: int, b: int|
                        0 <= a < b < entry_ids(self.entries@).len() implies entry_ids(
                            self.entries@,
                        )[a] != entry_ids(self.entries@)[b] by {
                        let a0 = if a < i { a } else { a + 1 };
                        let b0 = if b < i { b } else { b + 1 };
                        assert(entry_ids(before)[a0] != entry_ids(before)[b0]);
                    }
                    assert forall|k: int| 0 <= k < self.entries@.len() implies #[trigger] self.entries@[k].0.0@ != id.0@ by {
                        let k0 = if k < i { k } else { k + 1 };
                        assert(entry_ids(before)[k0] != entry_ids(before)[i as int]);
                    }
                }
                Ok(config)
            },
        }
    }
}

/// Registering a new client and then unregistering it leaves the registry
/// as it was, and hands back the configuration it was registered with.
pub proof fn law_remove_undoes_insert<C>(before: Seq<(ClientId, C)>, id: ClientId, config: C, i: int)
    requires
        all_distinct(entry_ids(before)),
        !has_id(before, id.0@),
        0 <= i < before.len() + 1,
        before.push((id, config))[i].0.0@ == id.0@,
    ensures
        i == before.len(),
        before.push((id, config)).remove(i) == before,
        before.push((id, config))[i].1 == config,
{
    if i < before.len() {
        assert(before[i].0.0@ == id.0@);
    }
    assert(before.push((id, config)).remove(i) =~= before);
}

/// All active clients of the supervisor, by kind; `C` is the configuration
/// of a controller.
pub struct ActiveClients<C> {
    pub sensors: ClientRegistry<SensorConfig>,
    pub actors: ClientRegistry<ActorConfig>,
    pub controllers: ClientRegistry<C>,
    pub misc: ClientRegistry<()>,
}

impl<C> ActiveClients<C> {
    /// No client is active.
    pub fn new() -> (r: ActiveClients<C>)
        ensures
            r.sensors.view().len() == 0,
            r.actors.view().len() == 0,
            r.controllers.view().len() == 0,
            r.misc.view().len() == 0,
            r.sensors.wf() && r.actors.wf() && r.controllers.wf() && r.misc.wf(),
    {
        ActiveClients {
            sensors: ClientRegistry::new(),
            actors: ClientRegistry::new(),
            controllers: ClientRegistry::new(),
            misc: ClientRegistry::new(),
        }
    }

    /// Whether `id` is active as a client of any kind.
    pub fn contains_id(&self, id: &ClientId) -> (r: bool)
        ensures
            r == (self.sensors.has(id.0@) || self.actors.has(id.0@) || self.controllers.has(id.0@)
                || self.misc.has(id.0@)),
    {
        self.sensors.contains(id) || self.actors.contains(id) || self.controllers.contains(id)
            || self.misc.contains(id)
    }
}

impl<C: Clone> ActiveClients<C> {
    /// The active clients of each kind, in the order in which they were
    /// started, with copies of their configurations.
    pub fn list(&self) -> (r: ActiveClientsList<C>)
        ensures
            copies_of(r.sensors@, self.sensors.view()),
            copies_of(r.actors@, self.actors.view()),
            copies_of(r.controllers@, self.controllers.view()),
            r.misc@.map_values(|id: ClientId| id.0@) == entry_ids(self.misc.view()),
    {
        ActiveClientsList {
            sensors: copy_entries(self.sensors.entries()),
            actors: copy_entries(self.actors.entries()),
            controllers: copy_entries(self.controllers.entries()),
            misc: copy_ids(self.misc.entries()),
        }
    }
}

fn copy_entries<D: Clone>(entries: &Vec<(ClientId, D)>) -> (r: Vec<(ClientId, D)>)
    ensures
        copies_of(r@, entries@),
{
    let mut r: Vec<(ClientId, D)> = Vec::new();
    for i in 0..entries.len()
        invariant
            copies_of(r@, entries@.take(i as int)),
    {
        let id = entries[i].0.duplicate();
        let config = entries[i].1.clone();
        r.push((id, config));
    }
    assert(entries@.take(entries@.len() as int) =~= entries@);
    r
}

fn copy_ids<D>(entries: &Vec<(ClientId, D)>) -> (r: Vec<ClientId>)
    ensures
        r@.map_values(|id: ClientId| id.0@) == entry_ids(entries@),
{
    let mut r: Vec<ClientId> = Vec::new();
    for i in 0..entries.len()
        invariant
            r@.map_values(|id: ClientId| id.0@) == entry_ids(entries@).take(i as int),
    {
        let ghost before = r@;
        let id = entries[i].0.duplicate();
        r.push(id);
        proof {
            assert(r@ == before.push(id));
            assert(entry_ids(entries@)[i as int] == entries@[i as int].0.0@);
            assert(r@.map_values(|id: ClientId| id.0@) =~= before.map_values(|id: ClientId| id.0@).push(
                id.0@,
            ));
            assert(entry_ids(entries@).take(i + 1) =~= entry_ids(entries@).take(i as int).push(
                entry_ids(entries@)[i as int],
            ));
        }
    }
    assert(entry_ids(entries@).take(entries@.len() as int) =~= entry_ids(entries@));
    r
}

/// The active clients as reported to other clients: each kind by id with its
/// configuration; `C` is the configuration of a controller.
#[derive(Clone, Debug)]
pub struct ActiveClientsList<C> {
    pub sensors: Vec<(ClientId, SensorConfig)>,
    pub actors: Vec<(ClientId, ActorConfig)>,
    pub controllers: Vec<(ClientId, C)>,
    pub misc: Vec<ClientId>,
}

} // verus!
