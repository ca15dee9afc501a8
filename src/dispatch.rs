use vstd::prelude::*;
use crate::container::{
    begin_load_state, finish_load_state, unload_state, LoadError, LoadedModule, ModuleContainer,
};

verus! {

/// What an event's text asks for.
pub enum Command {
    Load,
    Unload,
    /// Any other text: the name of an entry point to invoke.
    Named(String),
}

pub open spec fn load_word() -> Seq<char> {
    "load"@
}

pub open spec fn unload_word() -> Seq<char> {
    "unload"@
}

/// Whether a command name is one of the two that drive the container.
pub open spec fn is_control(name: Seq<char>) -> bool {
    name == load_word() || name == unload_word()
}

pub open spec fn loaded_text() -> Seq<char> {
    "Loaded module"@
}

pub open spec fn unloaded_text() -> Seq<char> {
    "Unloaded module"@
}

/// The reply that reports a failed load, one for each reason.
pub open spec fn load_failure_text(e: LoadError) -> Seq<char> {
    match e {
        LoadError::NotFound => "Could not load module: no artifact at the configured path"@,
        LoadError::InvalidFormat => "Could not load module: the artifact is not a loadable module"@,
        LoadError::AlreadyLoading => "Could not load module: another load is in progress"@,
    }
}

/// Reads the command that an event's text names.
pub fn classify(name: &str) -> (r: Command)
    ensures
        r is Load <==> name@ == load_word(),
        r is Unload <==> name@ == unload_word(),
        r matches Command::Named(n) ==> n@ == name@ && !is_control(name@),
{
    proof {
        reveal_strlit("load");
        reveal_strlit("unload");
        assert("load"@[0] != "unload"@[0]);
    }
    let text = name.to_owned();
    if text == "load".to_owned() {
        Command::Load
    } else if text == "unload".to_owned() {
        Command::Unload
    } else {
        Command::Named(text)
    }
}

/// The text that reports a failed load.
pub fn load_failure_reply(e: LoadError) -> (r: String)
    ensures
        r@ == load_failure_text(e),
{
    match e {
        LoadError::NotFound => "Could not load module: no artifact at the configured path".to_owned(),
        LoadError::InvalidFormat => "Could not load module: the artifact is not a loadable module".to_owned(),
        LoadError::AlreadyLoading => "Could not load module: another load is in progress".to_owned(),
    }
}

/// What the host does next for an event.
pub enum Step<M> {
    /// Send this text to where the event came from; the event is then done.
    Reply(String),
    /// Open the configured artifact, without holding the container's lock,
    /// and hand the outcome to `on_opened`.
    Open,
    /// Look up the entry point named by the command in this module, and
    /// invoke it if `resolve` finds it. The handle keeps the module alive for
    /// the whole invocation.
    Invoke(LoadedModule<M>, String),
    /// Nothing to do and nothing to say.
    Idle,
}

/// Decides what an event whose text is `name` does, making the change it
/// asks of the container. Run under the container's lock; none of the steps
/// it hands back needs the lock.
pub fn on_event<M>(container: &mut ModuleContainer<M>, name: &str) -> (r: Step<M>)
    requires
        old(container).wf(),
    ensures
        final(container).wf(),
        name@ == load_word() && old(container)@.loading ==> (r matches Step::Reply(t)
            && t@ == load_failure_text(LoadError::AlreadyLoading))
            && final(container)@ == old(container)@ && final(container).held() == old(container).held(),
        name@ == load_word() && !old(container)@.loading ==> r is Open
            && final(container)@ == begin_load_state(old(container)@)
            && final(container).held() == old(container).held(),
        name@ == unload_word() ==> (r matches Step::Reply(t) && t@ == unloaded_text())
            && final(container)@ == unload_state(old(container)@) && final(container).held() is None,
        !is_control(name@) ==> final(container)@ == old(container)@
            && final(container).held() == old(container).held()
            && !(r is Reply) && !(r is Open),
        !is_control(name@) && old(container)@.current is None ==> r is Idle,
        !is_control(name@) ==> (old(container)@.current matches Some(o) ==> (r matches Step::Invoke(h, n)
            && h@ == o && old(container).held() == Some(h.module) && n@ == name@)),
{
    match classify(name) {
        Command::Load => match container.begin_load() {
            Ok(()) => Step::Open,
            Err(e) => Step::Reply(load_failure_reply(e)),
        },
        Command::Unload => {
            let _ = container.unload();
            Step::Reply("Unloaded module".to_owned())
        },
        Command::Named(n) => match container.acquire() {
            Some(h) => Step::Invoke(h, n),
            None => Step::Idle,
        },
    }
}

/// Ends the load that `on_event` began, with what opening the artifact at
/// `path` gave. Run under the container's lock. Returns the reply, and the
/// module that was replaced, to be dropped once the lock is released.
pub fn on_opened<M>(container: &mut ModuleContainer<M>, path: String, opened: Result<M, LoadError>) -> (r: (String, Option<LoadedModule<M>>))
    requires
        old(container).wf(),
        old(container)@.loading,
        old(container)@.issued < u64::MAX,
    ensures
        final(container).wf(),
        final(container)@ == finish_load_state(old(container)@, path@, opened is Ok),
        opened is Ok ==> r.0@ == loaded_text() && (r.1 is None <==> old(container)@.current is None),
        opened matches Ok(m) ==> (final(container).held() matches Some(a) && *a == m),
        opened is Err ==> final(container).held() == old(container).held(),
        opened matches Err(e) ==> r.0@ == load_failure_text(e) && r.1 is None,
        r.1 matches Some(p) ==> old(container)@.current == Some(p@) && old(container).held() == Some(p.module),
{
    match container.finish_load(path, opened) {
        Ok(prev) => ("Loaded module".to_owned(), prev),
        Err(e) => (load_failure_reply(e), None),
    }
}

/// What looking up an entry point by name in a module found.
pub enum SymbolLookup<E> {
    /// An entry point of the expected shape.
    Exported(E),
    /// No symbol of that name.
    Missing,
    /// A symbol of that name whose shape is not that of an entry point.
    SignatureMismatch,
}

/// The entry point to invoke, if the lookup found one of the expected shape.
/// A missing symbol and one of another shape are both a miss: no reply, no
/// fault.
pub fn resolve<E>(found: SymbolLookup<E>) -> (r: Option<E>)
    ensures
        found matches SymbolLookup::Exported(e) ==> r == Some(e),
        !(found is Exported) ==> r is None,
{
    match found {
        SymbolLookup::Exported(e) => Some(e),
        SymbolLookup::Missing => None,
        SymbolLookup::SignatureMismatch => None,
    }
}

} // verus!
