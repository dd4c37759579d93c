//! The registry of objects bound on the audio server: metadata stores, sink
//! nodes, devices with their routes, and the change subscriptions held for
//! each. Native handles are type parameters: the registry owns them without
//! looking inside.
use std::collections::HashMap;
use vstd::prelude::*;

verus! {

broadcast use vstd::std_specs::hash::group_hash_axioms;

/// The physical path on a device that carries audio.
#[derive(Debug, Clone, Copy, PartialEq, Eq, Structural)]
pub struct Route {
    pub index: i32,
    pub device: i32,
}

/// A sink node: its id, its name, the device behind it and its handle.
pub struct Sink<N> {
    pub id: u32,
    pub name: String,
    pub device_id: u32,
    pub node: N,
}

/// A missing link while resolving the default sink down to a device route.
#[derive(Debug, Clone, Copy, PartialEq, Eq, Structural)]
pub enum ResolveError {
    /// No default-sink name has been set.
    NoDefaultSink,
    /// No live sink carries the default-sink name.
    UnknownSink,
    /// The default sink's device is not bound.
    DeviceNotBound,
    /// The default sink's device has no known route.
    NoRoute,
}

/// Keeps the sinks other than the one with this id.
pub open spec fn other_than<N>(id: u32) -> spec_fn(Sink<N>) -> bool {
    |s: Sink<N>| s.id != id
}

/// The first sink in the sequence that carries this name.
pub open spec fn first_named<N>(sinks: Seq<Sink<N>>, name: Seq<char>) -> Option<Sink<N>>
    decreases sinks.len(),
{
    if sinks.len() == 0 {
        None
    } else if sinks[0].name@ == name {
        Some(sinks[0])
    } else {
        first_named(sinks.skip(1), name)
    }
}

/// The registry. Sinks are kept in the order in which they were added.
pub struct Store<M, N, D, L> {
    metadata: HashMap<u32, M>,
    sinks: Vec<Sink<N>>,
    devices: HashMap<u32, D>,
    routes: HashMap<u32, Route>,
    listeners: HashMap<u32, Vec<L>>,
    default_sink: Option<String>,
}

impl<M, N, D, L> Store<M, N, D, L> {
    /// Metadata stores by id.
    pub closed spec fn metadata(&self) -> Map<u32, M> {
        self.metadata@
    }

    /// Sink nodes, in the order in which they were added.
    pub closed spec fn sinks(&self) -> Seq<Sink<N>> {
        self.sinks@
    }

    /// Devices by id.
    pub closed spec fn devices(&self) -> Map<u32, D> {
        self.devices@
    }

    /// The route last reported for each device.
    pub closed spec fn routes(&self) -> Map<u32, Route> {
        self.routes@
    }

    /// Subscriptions held for each object id.
    pub closed spec fn listeners(&self) -> Map<u32, Vec<L>> {
        self.listeners@
    }

    /// The session's default-sink name, once set.
    pub closed spec fn default_sink(&self) -> Option<Seq<char>> {
        match self.default_sink {
            Some(s) => Some(s@),
            None => None,
        }
    }

    /// No two sinks share an id.
    pub open spec fn wf(&self) -> bool {
        forall|i: int, j: int|
            0 <= i < j < self.sinks().len() ==> self.sinks()[i].id != self.sinks()[j].id
    }

    /// The listeners after one more is held for `id`.
    pub open spec fn listeners_with(&self, id: u32, l: L) -> Map<u32, Seq<L>> {
        self.listener_seqs().insert(
            id,
            if self.listeners().contains_key(id) {
                self.listeners()[id]@
            } else {
                Seq::empty()
            }.push(l),
        )
    }

    /// The listeners, each list as a sequence.
    pub open spec fn listener_seqs(&self) -> Map<u32, Seq<L>> {
        self.listeners().map_values(|v: Vec<L>| v@)
    }

    /// Whether the sink with this id is the one the session names as default.
    pub open spec fn spec_is_default_sink(&self, id: u32) -> bool {
        match self.default_sink() {
            Some(name) => exists|i: int|
                0 <= i < self.sinks().len() && self.sinks()[i].id == id && self.sinks()[i].name@
                    == name,
            None => false,
        }
    }

    /// An empty registry.
    pub fn new() -> (r: Self)
        ensures
            r.wf(),
            r.metadata() == Map::<u32, M>::empty(),
            r.sinks() == Seq::<Sink<N>>::empty(),
            r.devices() == Map::<u32, D>::empty(),
            r.routes() == Map::<u32, Route>::empty(),
            r.listeners() == Map::<u32, Vec<L>>::empty(),
            r.default_sink() == None::<Seq<char>>,
    {
        Store {
            metadata: HashMap::new(),
            sinks: Vec::new(),
            devices: HashMap::new(),
            routes: HashMap::new(),
            listeners: HashMap::new(),
            default_sink: None,
        }
    }

    /// Binds a metadata store.
    pub fn add_metadata(&mut self, id: u32, metadata: M)
        ensures
            final(self).metadata() == old(self).metadata().insert(id, metadata),
            final(self).sinks() == old(self).sinks(),
            final(self).devices() == old(self).devices(),
            final(self).routes() == old(self).routes(),
            final(self).listeners() == old(self).listeners(),
            final(self).default_sink() == old(self).default_sink(),
    {
        self.metadata.insert(id, metadata);
    }

    /// Binds a sink node named `name` on device `device_id`. A sink already
    /// bound under `id` is replaced.
    pub fn add_sink(&mut self, id: u32, node: N, name: String, device_id: u32)
        requires
            old(self).wf(),
        ensures
            final(self).wf(),
            final(self).sinks() == old(self).sinks().filter(other_than(id)).push(
                Sink { id, name, device_id, node },
            ),
            final(self).metadata() == old(self).metadata(),
            final(self).devices() == old(self).devices(),
            final(self).routes() == old(self).routes(),
            final(self).listeners() == old(self).listeners(),
            final(self).default_sink() == old(self).default_sink(),
    {
        self.remove_sink(id);
        self.sinks.push(Sink { id, name, device_id, node });
        proof {
            let s = self.sinks@;
            assert forall|i: int, j: int| 0 <= i < j < s.len() implies s[i].id != s[j].id by {
                if j == s.len() - 1 {
                    assert(other_than::<N>(id)(s[i]));
                }
            }
        }
    }

    /// Binds a device.
    pub fn add_device(&mut self, id: u32, device: D)
        ensures
            final(self).devices() == old(self).devices().insert(id, device),
            final(self).metadata() == old(self).metadata(),
            final(self).sinks() == old(self).sinks(),
            final(self).routes() == old(self).routes(),
            final(self).listeners() == old(self).listeners(),
            final(self).default_sink() == old(self).default_sink(),
    {
        self.devices.insert(id, device);
    }

    /// Records the route that a device reports; a later report replaces it.
    pub fn set_route(&mut self, device_id: u32, route: Route)
        ensures
            final(self).routes() == old(self).routes().insert(device_id, route),
            final(self).metadata() == old(self).metadata(),
            final(self).sinks() == old(self).sinks(),
            final(self).devices() == old(self).devices(),
            final(self).listeners() == old(self).listeners(),
            final(self).default_sink() == old(self).default_sink(),
    {
        self.routes.insert(device_id, route);
    }

    /// Holds one more change subscription for the object `obj_id`.
    pub fn add_listener(&mut self, obj_id: u32, listener: L)
        ensures
            final(self).listener_seqs() == old(self).listeners_with(obj_id, listener),
            final(self).listeners().dom() == old(self).listeners().dom().insert(obj_id),
            final(self).metadata() == old(self).metadata(),
            final(self).sinks() == old(self).sinks(),
            final(self).devices() == old(self).devices(),
            final(self).routes() == old(self).routes(),
            final(self).default_sink() == old(self).default_sink(),
    {
        let mut held = match self.listeners.remove(&obj_id) {
            Some(v) => v,
            None => Vec::new(),
        };
        held.push(listener);
        self.listeners.insert(obj_id, held);
        assert(self.listener_seqs() =~= old(self).listeners_with(obj_id, listener));
    }

    /// Sets the session's default-sink name.
    pub fn update_default_sink(&mut self, name: String)
        ensures
            final(self).default_sink() == Some(name@),
            final(self).metadata() == old(self).metadata(),
            final(self).sinks() == old(self).sinks(),
            final(self).devices() == old(self).devices(),
            final(self).routes() == old(self).routes(),
            final(self).listeners() == old(self).listeners(),
    {
        self.default_sink = Some(name);
    }

    /// Drops the object `obj_id` from every map it may stand in, with its
    /// route and its subscriptions. An unknown id changes nothing.
    pub fn remove(&mut self, obj_id: u32)
        requires
            old(self).wf(),
        ensures
            final(self).wf(),
            final(self).metadata() == old(self).metadata().remove(obj_id),
            final(self).sinks() == old(self).sinks().filter(other_than(obj_id)),
            final(self).devices() == old(self).devices().remove(obj_id),
            final(self).routes() == old(self).routes().remove(obj_id),
            final(self).listeners() == old(self).listeners().remove(obj_id),
            final(self).default_sink() == old(self).default_sink(),
    {
        self.remove_sink(obj_id);
        self.listeners.remove(&obj_id);
        self.routes.remove(&obj_id);
        self.devices.remove(&obj_id);
        self.metadata.remove(&obj_id);
    }

    fn remove_sink(&mut self, id: u32)
        requires
            old(self).wf(),
        ensures
            final(self).wf(),
            final(self).sinks() == old(self).sinks().filter(other_than(id)),
            final(self).metadata() == old(self).metadata(),
            final(self).devices() == old(self).devices(),
            final(self).routes() == old(self).routes(),
            final(self).listeners() == old(self).listeners(),
            final(self).default_sink() == old(self).default_sink(),
    {
        let mut i: usize = 0;
        while i < self.sinks.len()
            invariant
                i <= self.sinks@.len(),
                *self == *old(self),
                self.wf(),
                forall|k: int| 0 <= k < i ==> self.sinks@[k].id != id,
            decreases self.sinks@.len() - i,
        {
            if self.sinks[i].id == id {
                let ghost before = self.sinks@;
                proof {
                    assert(before == self.sinks());
                    assert(forall|a: int, b: int|
                        0 <= a < b < before.len() ==> before[a].id != before[b].id);
                    lemma_filter_drops_one(before, i as int, id);
                }
                self.sinks.remove(i);
                proof {
                    let after = self.sinks@;
                    assert forall|a: int, b: int| 0 <= a < b < after.len() implies after[a].id
                        != after[b].id by {
                        let a0 = if a < i { a } else { a + 1 };
                        let b0 = if b < i { b } else { b + 1 };
                        assert(after[a] == before[a0]);
                        assert(after[b] == before[b0]);
                    }
                }
                return;
            }
            i = i + 1;
        }
        proof {
            lemma_filter_keeps_all(self.sinks@, id);
        }
    }

    /// How many subscriptions are held for the object `id`.
    pub fn listener_count(&self, id: u32) -> (r: usize)
        ensures
            r == (if self.listeners().contains_key(id) { self.listeners()[id]@.len() } else { 0 }),
    {
        match self.listeners.get(&id) {
            Some(v) => v.len(),
            None => 0,
        }
    }

    /// The session's default-sink name, once set.
    pub fn default_sink_name(&self) -> (r: Option<&String>)
        ensures
            match r {
                Some(n) => self.default_sink() == Some(n@),
                None => self.default_sink() is None,
            },
    {
        self.default_sink.as_ref()
    }

    /// Whether the sink `id` is the one the session names as default.
    pub fn is_default_sink(&self, id: u32) -> (r: bool)
        ensures
            r == self.spec_is_default_sink(id),
    {
        let default_sink_name = match &self.default_sink {
            Some(n) => n,
            None => return false,
        };
        let mut i: usize = 0;
        while i < self.sinks.len()
            invariant
                i <= self.sinks@.len(),
                self.default_sink() == Some(default_sink_name@),
                forall|k: int|
                    0 <= k < i ==> !(self.sinks@[k].id == id && self.sinks@[k].name@
                        == default_sink_name@),
            decreases self.sinks@.len() - i,
        {
            if self.sinks[i].id == id && self.sinks[i].name == *default_sink_name {
                assert(self.sinks()[i as int].id == id);
                return true;
            }
            i = i + 1;
        }
        false
    }

    /// Follows the chain from the default-sink name to the sink that carries
    /// it (the first one added, if several do), to its device and to that
    /// device's route. Each missing link is its own error.
    pub fn resolve_default_device_and_route(&self) -> (r: Result<(&D, Route), ResolveError>)
        ensures
            r == self.spec_resolve(),
    {
        let name = match &self.default_sink {
            Some(n) => n,
            None => return Err(ResolveError::NoDefaultSink),
        };
        let mut i: usize = 0;
        assert(self.sinks@.skip(0) =~= self.sinks@);
        while i < self.sinks.len()
            invariant
                i <= self.sinks@.len(),
                self.default_sink() == Some(name@),
                first_named(self.sinks@, name@) == first_named(self.sinks@.skip(i as int), name@),
            decreases self.sinks@.len() - i,
        {
            assert(self.sinks@.skip(i as int).skip(1) =~= self.sinks@.skip(i + 1));
            if self.sinks[i].name == *name {
                let device_id = self.sinks[i].device_id;
                let device = match self.devices.get(&device_id) {
                    Some(d) => d,
                    None => return Err(ResolveError::DeviceNotBound),
                };
                let route = match self.routes.get(&device_id) {
                    Some(r) => *r,
                    None => return Err(ResolveError::NoRoute),
                };
                return Ok((device, route));
            }
            i = i + 1;
        }
        Err(ResolveError::UnknownSink)
    }

    /// What resolving the default sink gives.
    pub open spec fn spec_resolve(&self) -> Result<(&D, Route), ResolveError> {
        match self.default_sink() {
            None => Err(ResolveError::NoDefaultSink),
            Some(name) => match first_named(self.sinks(), name) {
                None => Err(ResolveError::UnknownSink),
                Some(sink) => if !self.devices().contains_key(sink.device_id) {
                    Err(ResolveError::DeviceNotBound)
                } else if !self.routes().contains_key(sink.device_id) {
                    Err(ResolveError::NoRoute)
                } else {
                    Ok((&self.devices()[sink.device_id], self.routes()[sink.device_id]))
                },
            },
        }
    }
}

proof fn lemma_filter_keeps_all<N>(s: Seq<Sink<N>>, id: u32)
    requires
        forall|k: int| 0 <= k < s.len() ==> s[k].id != id,
    ensures
        s.filter(other_than(id)) == s,
    decreases s.len(),
{
    reveal(Seq::filter);
    if s.len() > 0 {
        lemma_filter_keeps_all(s.drop_last(), id);
        assert(s.drop_last().push(s.last()) =~= s);
    }
}

proof fn lemma_filter_drops_one<N>(s: Seq<Sink<N>>, i: int, id: u32)
    requires
        0 <= i < s.len(),
        s[i].id == id,
        forall|a: int, b: int| 0 <= a < b < s.len() ==> s[a].id != s[b].id,
    ensures
        s.filter(other_than(id)) == s.remove(i),
    decreases s.len(),
{
    reveal(Seq::filter);
    if i == s.len() - 1 {
        lemma_filter_keeps_all(s.drop_last(), id);
        assert(s.drop_last() =~= s.remove(i));
    } else {
        assert(s.last().id != id);
        lemma_filter_drops_one(s.drop_last(), i, id);
        assert(s.drop_last().remove(i).push(s.last()) =~= s.remove(i));
    }
}

} // verus!
