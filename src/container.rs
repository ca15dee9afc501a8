use vstd::prelude::*;
use std::sync::Arc;

verus! {

/// Why an artifact could not be brought in as the loaded module.
#[derive(Clone, Copy, Debug, PartialEq, Eq, Structural)]
pub enum LoadError {
    /// No artifact exists at the configured path.
    NotFound,
    /// The artifact exists but is not a loadable module.
    InvalidFormat,
    /// Another load has begun and not yet finished.
    AlreadyLoading,
}

/// The guard around the container was found broken by an earlier fault.
#[derive(Clone, Copy, Debug, PartialEq, Eq, Structural)]
pub enum UnloadError {
    Poisoned,
}

/// What the slot says of the module in it: where it came from, and which
/// successful load put it there.
pub struct Occupant {
    pub path: Seq<char>,
    pub generation: nat,
}

/// The container as a value: the slot, whether a load is under way, and how
/// many loads have succeeded so far.
pub struct ContainerState {
    pub current: Option<Occupant>,
    pub loading: bool,
    pub issued: nat,
}

/// Every occupant carries a generation that was issued, and none is zero.
pub open spec fn state_wf(s: ContainerState) -> bool {
    s.current matches Some(o) ==> 1 <= o.generation <= s.issued
}

/// Marking a load as begun; refused while another one is under way.
pub open spec fn begin_load_state(s: ContainerState) -> ContainerState {
    ContainerState { loading: true, ..s }
}

/// Ending the load under way: a module that opened takes the slot under a
/// fresh generation, a failure leaves the slot as it was.
pub open spec fn finish_load_state(s: ContainerState, path: Seq<char>, opened: bool) -> ContainerState {
    if opened {
        ContainerState {
            current: Some(Occupant { path, generation: s.issued + 1 }),
            loading: false,
            issued: s.issued + 1,
        }
    } else {
        ContainerState { loading: false, ..s }
    }
}

/// A whole load in one step: refused while another is under way, else begun
/// and ended at once.
pub open spec fn load_state(s: ContainerState, path: Seq<char>, opened: bool) -> ContainerState {
    if s.loading {
        s
    } else {
        finish_load_state(begin_load_state(s), path, opened)
    }
}

/// Emptying the slot, whatever was in it.
pub open spec fn unload_state(s: ContainerState) -> ContainerState {
    ContainerState { current: None, ..s }
}

/// A module in the slot, or a handle on it held by an invocation. The module
/// itself is shared: the container dropping its handle leaves every other
/// handle, and the module behind it, in place.
pub struct LoadedModule<M> {
    pub path: String,
    pub generation: u64,
    pub module: Arc<M>,
}

impl<M> LoadedModule<M> {
    pub open spec fn view(&self) -> Occupant {
        Occupant { path: self.path@, generation: self.generation as nat }
    }

    /// Another handle on the same module.
    pub fn share(&self) -> (r: Self)
        ensures
            r@ == self@,
            r.module == self.module,
    {
        LoadedModule { path: self.path.clone(), generation: self.generation, module: self.module.clone() }
    }
}

/// Holds at most one loaded module. Each operation is one short step: the
/// caller keeps the container behind a lock for the step alone, never for the
/// time an invocation runs.
pub struct ModuleContainer<M> {
    slot: Option<LoadedModule<M>>,
    loading: bool,
    issued: u64,
}

impl<M> ModuleContainer<M> {
    pub closed spec fn view(&self) -> ContainerState {
        ContainerState {
            current: match self.slot {
                Some(m) => Some(m@),
                None => None,
            },
            loading: self.loading,
            issued: self.issued as nat,
        }
    }

    /// The module handle that the slot holds, if any.
    pub closed spec fn held(&self) -> Option<Arc<M>> {
        match self.slot {
            Some(m) => Some(m.module),
            None => None,
        }
    }

    pub closed spec fn wf(&self) -> bool {
        state_wf(self@)
    }

    /// An empty slot, with no load under way and none done.
    pub fn new() -> (r: Self)
        ensures
            r.wf(),
            r@ == (ContainerState { current: None, loading: false, issued: 0 }),
    {
        ModuleContainer { slot: None, loading: false, issued: 0 }
    }

    /// Whether a load has begun and not yet finished.
    pub fn is_loading(&self) -> (r: bool)
        ensures
            r == self@.loading,
    {
        self.loading
    }

    /// How many loads have succeeded: the generation of the latest one.
    pub fn generation(&self) -> (r: u64)
        ensures
            r == self@.issued,
    {
        self.issued
    }

    /// Marks a load as begun, so that the artifact can be opened without the
    /// lock. Refused while another load is under way.
    pub fn begin_load(&mut self) -> (r: Result<(), LoadError>)
        requires
            old(self).wf(),
        ensures
            final(self).wf(),
            old(self)@.loading ==> r == Err::<(), LoadError>(LoadError::AlreadyLoading)
                && final(self)@ == old(self)@ && final(self).held() == old(self).held(),
            !old(self)@.loading ==> r is Ok && final(self)@ == begin_load_state(old(self)@)
                && final(self).held() == old(self).held(),
    {
        if self.loading {
            Err(LoadError::AlreadyLoading)
        } else {
            self.loading = true;
            Ok(())
        }
    }

    /// Ends the load under way with what opening the artifact at `path` gave.
    /// On success the new module takes the slot, and the module it replaces
    /// is handed back, to be dropped once the lock is released; on failure the
    /// slot is left as it was and the failure is returned.
    pub fn finish_load(&mut self, path: String, opened: Result<M, LoadError>) -> (r: Result<Option<LoadedModule<M>>, LoadError>)
        requires
            old(self).wf(),
            old(self)@.loading,
            old(self)@.issued < u64::MAX,
        ensures
            final(self).wf(),
            final(self)@ == finish_load_state(old(self)@, path@, opened is Ok),
            opened matches Ok(m) ==> (final(self).held() matches Some(a) && *a == m),
            opened is Ok ==> (r matches Ok(prev) && match prev {
                Some(p) => old(self).held() == Some(p.module) && old(self)@.current == Some(p@),
                None => old(self)@.current is None,
            }),
            opened matches Err(e) ==> r == Err::<Option<LoadedModule<M>>, LoadError>(e),
            opened is Err ==> final(self).held() == old(self).held(),
    {
        self.loading = false;
        match opened {
            Ok(m) => {
                self.issued = self.issued + 1;
                let fresh = LoadedModule { path, generation: self.issued, module: Arc::new(m) };
                let prev = self.slot.take();
                self.slot = Some(fresh);
                Ok(prev)
            },
            Err(e) => Err(e),
        }
    }

    /// A whole load under one hold of the lock, with what opening the
    /// artifact at `path` gave: refused while another load is under way,
    /// else as `finish_load`.
    pub fn load(&mut self, path: String, opened: Result<M, LoadError>) -> (r: Result<(), LoadError>)
        requires
            old(self).wf(),
            old(self)@.issued < u64::MAX,
        ensures
            final(self).wf(),
            final(self)@ == load_state(old(self)@, path@, opened is Ok),
            old(self)@.loading ==> r == Err::<(), LoadError>(LoadError::AlreadyLoading)
                && final(self).held() == old(self).held(),
            !old(self)@.loading ==> match opened {
                Ok(m) => r is Ok && (final(self).held() matches Some(a) && *a == m),
                Err(e) => r == Err::<(), LoadError>(e) && final(self).held() == old(self).held(),
            },
    {
        match self.begin_load() {
            Err(e) => Err(e),
            Ok(()) => match self.finish_load(path, opened) {
                Ok(_) => Ok(()),
                Err(e) => Err(e),
            },
        }
    }

    /// Empties the slot; succeeds whatever was in it. A handle that an
    /// invocation holds keeps its module alive.
    pub fn unload(&mut self) -> (r: Result<(), UnloadError>)
        requires
            old(self).wf(),
        ensures
            final(self).wf(),
            r is Ok,
            final(self)@ == unload_state(old(self)@),
            final(self).held() is None,
    {
        self.slot = None;
        Ok(())
    }

    /// A handle on the module in the slot, for one invocation; `None` when
    /// the slot is empty.
    pub fn acquire(&self) -> (r: Option<LoadedModule<M>>)
        ensures
            match r {
                Some(h) => self@.current == Some(h@) && self.held() == Some(h.module),
                None => self@.current is None,
            },
    {
        match &self.slot {
            Some(m) => Some(m.share()),
            None => None,
        }
    }
}

/// Unloading succeeds from every state and leaves the slot empty; unloading
/// an empty slot changes nothing, so a second unload is the first one again.
pub proof fn lemma_unload_idempotent(s: ContainerState)
    ensures
        unload_state(s).current is None,
        s.current is None ==> unload_state(s) == s,
        unload_state(unload_state(s)) == unload_state(s),
        state_wf(s) ==> state_wf(unload_state(s)),
{
}

/// After a load of `a` and then a load of `b` both succeed, the slot's
/// occupant is `b`, under a generation one past the one `a` was given.
pub proof fn lemma_load_replaces(s: ContainerState, a: Seq<char>, b: Seq<char>)
    requires
        state_wf(s),
        !s.loading,
    ensures
        load_state(s, a, true).current == Some(Occupant { path: a, generation: s.issued + 1 }),
        load_state(load_state(s, a, true), b, true).current == Some(
            Occupant { path: b, generation: s.issued + 2 },
        ),
        state_wf(load_state(load_state(s, a, true), b, true)),
{
}

/// Once the occupant `held` has been taken from the slot, an unload leaves
/// the slot empty, and a load that completes puts in an occupant of a later
/// generation than `held`: no later occupant shares its generation.
pub proof fn lemma_in_flight_isolation(s: ContainerState, held: Occupant, path: Seq<char>)
    requires
        state_wf(s),
        s.current == Some(held),
    ensures
        unload_state(s).current is None,
        s.loading ==> load_state(s, path, true).current == Some(held),
        !s.loading ==> (load_state(s, path, true).current matches Some(o)
            && o.generation > held.generation),
        finish_load_state(s, path, true).current matches Some(o) && o.generation > held.generation,
{
}

/// A load (begun, then ended with `opened`) and an unload that race, in any
/// order that the lock allows, leave the slot either empty or holding the
/// newly loaded module, with no load under way.
pub proof fn lemma_load_unload_race(s: ContainerState, path: Seq<char>, opened: bool)
    requires
        state_wf(s),
        !s.loading,
    ensures
        ({
            let fresh = Some(Occupant { path, generation: s.issued + 1 });
            let t1 = finish_load_state(begin_load_state(unload_state(s)), path, opened);
            let t2 = finish_load_state(unload_state(begin_load_state(s)), path, opened);
            let t3 = unload_state(finish_load_state(begin_load_state(s), path, opened));
            &&& t1.current is None || t1.current == fresh
            &&& t2.current is None || t2.current == fresh
            &&& t3.current is None
            &&& !t1.loading && !t2.loading && !t3.loading
            &&& state_wf(t1) && state_wf(t2) && state_wf(t3)
        }),
{
}

} // verus!
