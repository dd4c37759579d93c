//! The session-bus side's cached volume and mute state, and the decision of
//! which changes are announced.
use vstd::laws_eq::obeys_concrete_eq;
use vstd::prelude::*;

verus! {

broadcast use vstd::laws_eq::group_laws_eq;

/// A change observed on the audio server, to be mirrored on the session bus.
#[derive(Debug, Clone, Copy, PartialEq, Eq, Structural)]
pub enum Event {
    /// Volume as a linear percentage.
    Volume(u32),
    Mute(bool),
}

/// What writing `new` over the cached value announces: the new value, unless
/// the cache already holds it. The first value observed is announced too.
pub open spec fn emits<T>(cached: Option<T>, new: T) -> Option<T> {
    if cached == Some(new) {
        None
    } else {
        Some(new)
    }
}

/// A cached value that announces only its changes.
pub struct Attribute<T>(Option<T>);

impl<T> View for Attribute<T> {
    type V = Option<T>;

    closed spec fn view(&self) -> Option<T> {
        self.0
    }
}

impl<T: Copy + PartialEq> Attribute<T> {
    /// An attribute with no value yet.
    pub fn new() -> (r: Self)
        ensures
            r@ == None::<T>,
    {
        Attribute(None)
    }

    /// The cached value, if any was written.
    pub fn get(&self) -> (r: Option<T>)
        ensures
            r == self@,
    {
        self.0
    }

    /// Caches `new` and returns it where it is a change worth announcing.
    pub fn write(&mut self, new: T) -> (r: Option<T>)
        requires
            obeys_concrete_eq::<T>(),
        ensures
            final(self)@ == Some(new),
            r == emits(old(self)@, new),
    {
        proof {
            reveal(obeys_concrete_eq);
        }
        let changed = match self.0 {
            Some(prev) => prev != new,
            None => true,
        };
        self.0 = Some(new);
        if changed {
            Some(new)
        } else {
            None
        }
    }
}

/// Writing the same value twice in a row announces it once at most: the
/// second write is silent, and the first is announced exactly when the cache
/// held something else.
pub proof fn lemma_repeated_value_announced_once<T>(cached: Option<T>, v: T)
    ensures
        emits(Some(v), v) == None::<T>,
        emits(cached, v) == (if cached == Some(v) { None } else { Some(v) }),
{
}

/// The volume and mute state served on the session bus.
pub struct DBus {
    volume: Attribute<u32>,
    muted: Attribute<bool>,
}

impl DBus {
    /// The cached volume.
    pub closed spec fn volume_cache(&self) -> Option<u32> {
        self.volume@
    }

    /// The cached mute flag.
    pub closed spec fn muted_cache(&self) -> Option<bool> {
        self.muted@
    }

    /// A state with nothing observed yet.
    pub fn new() -> (r: Self)
        ensures
            r.volume_cache() == None::<u32>,
            r.muted_cache() == None::<bool>,
    {
        DBus { volume: Attribute::new(), muted: Attribute::new() }
    }

    /// Caches a volume; returns it where it changed.
    pub fn set_volume(&mut self, volume: u32) -> (r: Option<u32>)
        ensures
            final(self).volume_cache() == Some(volume),
            final(self).muted_cache() == old(self).muted_cache(),
            r == emits(old(self).volume_cache(), volume),
    {
        self.volume.write(volume)
    }

    /// Caches a mute flag; returns it where it changed.
    pub fn set_muted(&mut self, muted: bool) -> (r: Option<bool>)
        ensures
            final(self).muted_cache() == Some(muted),
            final(self).volume_cache() == old(self).volume_cache(),
            r == emits(old(self).muted_cache(), muted),
    {
        self.muted.write(muted)
    }

    /// The volume served on the bus: 0 until one is observed.
    pub fn volume(&self) -> (r: u32)
        ensures
            r == match self.volume_cache() {
                Some(v) => v,
                None => 0,
            },
    {
        match self.volume.get() {
            Some(v) => v,
            None => 0,
        }
    }

    /// The mute flag served on the bus: false until one is observed.
    pub fn muted(&self) -> (r: bool)
        ensures
            r == match self.muted_cache() {
                Some(m) => m,
                None => false,
            },
    {
        match self.muted.get() {
            Some(m) => m,
            None => false,
        }
    }

    /// Applies an observed event to the cache and returns the change to
    /// announce, if any.
    pub fn handle_event(&mut self, event: Event) -> (r: Option<Event>)
        ensures
            match event {
                Event::Volume(v) => {
                    &&& final(self).volume_cache() == Some(v)
                    &&& final(self).muted_cache() == old(self).muted_cache()
                    &&& r == (if old(self).volume_cache() == Some(v) { None } else { Some(Event::Volume(v)) })
                },
                Event::Mute(m) => {
                    &&& final(self).muted_cache() == Some(m)
                    &&& final(self).volume_cache() == old(self).volume_cache()
                    &&& r == (if old(self).muted_cache() == Some(m) { None } else { Some(Event::Mute(m)) })
                },
            },
    {
        match event {
            Event::Volume(v) => match self.set_volume(v) {
                Some(changed) => Some(Event::Volume(changed)),
                None => None,
            },
            Event::Mute(m) => match self.set_muted(m) {
                Some(changed) => Some(Event::Mute(changed)),
                None => None,
            },
        }
    }
}

} // verus!
