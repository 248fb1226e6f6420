use vstd::prelude::*;
use crate::event::Event;
use crate::registry::{WindowRegistry, registered, unregistered, looked_up};

verus! {

/// Why a window could not be created.
#[derive(Debug, Clone, Copy, PartialEq, Eq, Structural)]
pub enum CreationError {
    /// The native backend returned a null handle.
    Failed,
}

/// What became of one dispatched event.
#[derive(Debug, Clone, Copy, PartialEq, Eq, Structural)]
pub enum DispatchOutcome {
    /// The callback reached no live window: no handler ran.
    Ignored,
    /// The handlers up to this index ran, and the one at it consumed the event.
    Consumed(usize),
    /// Every handler ran once and none consumed the event.
    Unclaimed,
}

/// No two handlers share a name.
pub open spec fn names_unique<H>(hs: Seq<(Seq<char>, H)>) -> bool {
    forall|i: int, j: int|
        0 <= i < hs.len() && 0 <= j < hs.len() && i != j ==> #[trigger] hs[i].0 != #[trigger] hs[j].0
}

/// Some handler carries `name`.
pub open spec fn has_name<H>(hs: Seq<(Seq<char>, H)>, name: Seq<char>) -> bool {
    exists|i: int| 0 <= i < hs.len() && #[trigger] hs[i].0 == name
}

/// The position of the handler that carries `name`, where one does.
pub open spec fn name_index<H>(hs: Seq<(Seq<char>, H)>, name: Seq<char>) -> int {
    choose|i: int| 0 <= i < hs.len() && #[trigger] hs[i].0 == name
}

/// The handlers after `handler` is attached under `name`: it takes the place
/// of the handler of that name, or comes last where there was none.
pub open spec fn attached<H>(hs: Seq<(Seq<char>, H)>, name: Seq<char>, handler: H) -> Seq<(Seq<char>, H)> {
    if has_name(hs, name) {
        hs.update(name_index(hs, name), (name, handler))
    } else {
        hs.push((name, handler))
    }
}

/// The handlers after the one named `name` is detached; unchanged where none
/// has that name.
pub open spec fn detached<H>(hs: Seq<(Seq<char>, H)>, name: Seq<char>) -> Seq<(Seq<char>, H)> {
    if has_name(hs, name) {
        hs.remove(name_index(hs, name))
    } else {
        hs
    }
}

/// The registry slots after a window with this handle and this destroyed
/// flag is destroyed.
pub open spec fn destroy_effect(slots: Seq<u64>, handle: u64, destroyed: bool) -> Seq<u64> {
    if destroyed {
        slots
    } else {
        unregistered(slots, handle)
    }
}

/// Whether a native callback for `handle` reaches a window with this handle
/// and destroyed flag, given the registry slots.
pub open spec fn reaches(slots: Seq<u64>, window_handle: u64, destroyed: bool, handle: u64) -> bool {
    !destroyed && looked_up(slots, handle) == Some(window_handle)
}

/// A native window together with its named event handlers. `H` is the type
/// of a handler: it gets the event and answers whether it consumed it.
pub struct Window<H> {
    handle: u64,
    has_been_destroyed: bool,
    event_handlers: Vec<(String, H)>,
}

impl<H> Window<H> {
    /// The native handle that the window owns.
    pub closed spec fn spec_handle(&self) -> u64 {
        self.handle
    }

    /// Whether the native handle has been released.
    pub closed spec fn destroyed(&self) -> bool {
        self.has_been_destroyed
    }

    /// The handlers, each with its name, in the order in which they run.
    pub closed spec fn handlers(&self) -> Seq<(Seq<char>, H)> {
        self.event_handlers@.map_values(|p: (String, H)| (p.0@, p.1))
    }

    /// The handle is not null and handler names are unique.
    pub open spec fn wf(&self) -> bool {
        self.spec_handle() != 0 && names_unique(self.handlers())
    }

    /// Wraps the handle that the native create call returned (0 for null).
    /// Width and height must be positive; a null handle is a creation failure.
    pub fn new(width: i32, height: i32, native: u64) -> (r: Result<Window<H>, CreationError>)
        requires
            width > 0,
            height > 0,
        ensures
            r is Err <==> native == 0,
            r matches Err(e) ==> e == CreationError::Failed,
            r matches Ok(w) ==> w.wf() && w.spec_handle() == native && !w.destroyed()
                && w.handlers() == Seq::<(Seq<char>, H)>::empty(),
    {
        if native == 0 {
            return Err(CreationError::Failed);
        }
        let w = Window { handle: native, has_been_destroyed: false, event_handlers: Vec::new() };
        assert(w.handlers() =~= Seq::<(Seq<char>, H)>::empty());
        Ok(w)
    }

    /// Wraps the handle that the native call for a borderless window
    /// returned; the same contract as `new`.
    pub fn new_undecorated(width: i32, height: i32, native: u64) -> (r: Result<Window<H>, CreationError>)
        requires
            width > 0,
            height > 0,
        ensures
            r is Err <==> native == 0,
            r matches Err(e) ==> e == CreationError::Failed,
            r matches Ok(w) ==> w.wf() && w.spec_handle() == native && !w.destroyed()
                && w.handlers() == Seq::<(Seq<char>, H)>::empty(),
    {
        Window::new(width, height, native)
    }

    /// The native handle that the window owns.
    pub fn native_handle(&self) -> (r: u64)
        ensures
            r == self.spec_handle(),
    {
        self.handle
    }

    /// Whether the native handle has been released.
    pub fn has_been_destroyed(&self) -> (r: bool)
        ensures
            r == self.destroyed(),
    {
        self.has_been_destroyed
    }

    /// Marks the window destroyed and takes it out of the registry, the first
    /// time only. Returns whether the caller now owes the one native release
    /// of the handle; later calls change nothing and return false.
    pub fn destroy(&mut self, registry: &mut WindowRegistry) -> (release: bool)
        requires
            old(registry).wf(),
        ensures
            release == !old(self).destroyed(),
            final(self).destroyed(),
            final(self).spec_handle() == old(self).spec_handle(),
            final(self).handlers() == old(self).handlers(),
            final(registry).wf(),
            final(registry)@ == destroy_effect(old(registry)@, old(self).spec_handle(), old(self).destroyed()),
    {
        if self.has_been_destroyed {
            return false;
        }
        registry.unregister(self.handle);
        self.has_been_destroyed = true;
        true
    }

    /// Enters the window in the registry, so that native callbacks for its
    /// handle reach it. Registering again changes nothing; a window of
    /// another handle in the same slot is displaced.
    pub fn register_for_events(&self, registry: &mut WindowRegistry)
        requires
            self.wf(),
            old(registry).wf(),
        ensures
            final(registry).wf(),
            final(registry)@ == registered(old(registry)@, self.spec_handle()),
    {
        registry.register(self.handle);
    }
}

impl<H> Window<H> {
    /// The position of the handler named `name`, or `None` where there is none.
    fn find_handler(&self, name: &String) -> (r: Option<usize>)
        ensures
            r matches Some(i) ==> i < self.handlers().len() && self.handlers()[i as int].0 == name@,
            r is None ==> !has_name(self.handlers(), name@),
    {
        let mut i: usize = 0;
        while i < self.event_handlers.len()
            invariant
                i <= self.event_handlers.len(),
                self.handlers().len() == self.event_handlers.len(),
                forall|j: int| 0 <= j < i ==> #[trigger] self.handlers()[j].0 != name@,
            decreases self.event_handlers.len() - i,
        {
            if self.event_handlers[i].0 == *name {
                return Some(i);
            }
            i = i + 1;
        }
        None
    }

    /// Attaches `handler` under `name`. A handler already attached under that
    /// name is replaced in its place; otherwise the new one runs last.
    pub fn attach_event_handler(&mut self, name: &str, handler: H)
        requires
            old(self).wf(),
        ensures
            final(self).wf(),
            final(self).spec_handle() == old(self).spec_handle(),
            final(self).destroyed() == old(self).destroyed(),
            final(self).handlers() == attached(old(self).handlers(), name@, handler),
    {
        let key = name.to_owned();
        let ghost hs = self.handlers();
        match self.find_handler(&key) {
            Some(i) => {
                proof {
                    lemma_name_index(hs, name@, i as int);
                }
                self.event_handlers.set(i, (key, handler));
            },
            None => {
                self.event_handlers.push((key, handler));
            },
        }
        assert(self.handlers() =~= attached(hs, name@, handler));
    }

    /// Detaches the handler named `name`; a no-op where there is none.
    pub fn detach_event_handler(&mut self, name: &str)
        requires
            old(self).wf(),
        ensures
            final(self).wf(),
            final(self).spec_handle() == old(self).spec_handle(),
            final(self).destroyed() == old(self).destroyed(),
            final(self).handlers() == detached(old(self).handlers(), name@),
    {
        let key = name.to_owned();
        let ghost hs = self.handlers();
        match self.find_handler(&key) {
            Some(i) => {
                proof {
                    lemma_name_index(hs, name@, i as int);
                }
                self.event_handlers.remove(i);
            },
            None => {},
        }
        assert(self.handlers() =~= detached(hs, name@));
    }
}

/// Where names are unique, the handler found under a name is at the one
/// position that carries it.
proof fn lemma_name_index<H>(hs: Seq<(Seq<char>, H)>, name: Seq<char>, i: int)
    requires
        names_unique(hs),
        0 <= i < hs.len(),
        hs[i].0 == name,
    ensures
        has_name(hs, name),
        name_index(hs, name) == i,
{
    assert(has_name(hs, name));
    let k = name_index(hs, name);
    assert(hs[k].0 == name);
}

/// What the handlers answered for an outcome: for `Consumed(i)`, every
/// handler before `i` answered false and the one at `i` true; for
/// `Unclaimed`, every handler answered false.
pub open spec fn handlers_ran<H: Fn(&Event) -> bool>(hs: Seq<(Seq<char>, H)>, event: &Event, outcome: DispatchOutcome) -> bool {
    match outcome {
        DispatchOutcome::Ignored => true,
        DispatchOutcome::Consumed(i) => i < hs.len() && hs[i as int].1.ensures((event,), true)
            && forall|j: int| 0 <= j < i ==> #[trigger] hs[j].1.ensures((event,), false),
        DispatchOutcome::Unclaimed => forall|j: int| 0 <= j < hs.len() ==> #[trigger] hs[j].1.ensures((event,), false),
    }
}

/// Runs the handlers of `window` on `event` for a native callback on
/// `handle`, in order, until one consumes the event. Nothing runs where the
/// callback does not reach the window: its handle's slot holds another
/// window or none, or the window has been destroyed.
pub fn dispatch_event<H: Fn(&Event) -> bool>(
    registry: &WindowRegistry,
    window: &Window<H>,
    handle: u64,
    event: &Event,
) -> (r: DispatchOutcome)
    requires
        registry.wf(),
        forall|j: int| 0 <= j < window.handlers().len() ==> #[trigger] window.handlers()[j].1.requires((event,)),
    ensures
        r == DispatchOutcome::Ignored <==> !reaches(registry@, window.spec_handle(), window.destroyed(), handle),
        handlers_ran(window.handlers(), event, r),
{
    if window.has_been_destroyed {
        return DispatchOutcome::Ignored;
    }
    match registry.lookup(handle) {
        Some(target) => {
            if target != window.handle {
                return DispatchOutcome::Ignored;
            }
        },
        None => {
            return DispatchOutcome::Ignored;
        },
    }
    let n = window.event_handlers.len();
    let mut i: usize = 0;
    while i < n
        invariant
            n == window.event_handlers.len(),
            n == window.handlers().len(),
            i <= n,
            reaches(registry@, window.spec_handle(), window.destroyed(), handle),
            forall|j: int| 0 <= j < n ==> #[trigger] window.handlers()[j].1.requires((event,)),
            forall|j: int| 0 <= j < i ==> #[trigger] window.handlers()[j].1.ensures((event,), false),
        decreases n - i,
    {
        let handler = &window.event_handlers[i].1;
        assert(window.handlers()[i as int].1 == *handler);
        if handler(event) {
            return DispatchOutcome::Consumed(i);
        }
        i = i + 1;
    }
    DispatchOutcome::Unclaimed
}

/// The registry slots, and the number of native releases owed, after
/// `times` calls of `destroy` on a window with this handle and flag.
pub open spec fn destroyed_times(slots: Seq<u64>, handle: u64, destroyed: bool, times: nat) -> (Seq<u64>, nat)
    decreases times,
{
    if times == 0 {
        (slots, 0)
    } else {
        let (rest, owed) = destroyed_times(destroy_effect(slots, handle, destroyed), handle, true, (times - 1) as nat);
        (rest, owed + if destroyed { 0nat } else { 1nat })
    }
}

/// Destroying a window any positive number of times leaves the registry as
/// destroying it once does, and owes at most one native release: exactly one
/// for a window that was live.
pub proof fn lemma_destroy_idempotent(slots: Seq<u64>, handle: u64, destroyed: bool, times: nat)
    requires
        times >= 1,
    ensures
        destroyed_times(slots, handle, destroyed, times)
            == (destroy_effect(slots, handle, destroyed), if destroyed { 0nat } else { 1nat }),
    decreases times,
{
    let once = destroy_effect(slots, handle, destroyed);
    if times > 1 {
        lemma_destroy_idempotent(once, handle, true, (times - 1) as nat);
    } else {
        assert(destroyed_times(once, handle, true, 0) == (once, 0nat));
    }
    assert(destroy_effect(once, handle, true) == once);
}

/// Once a window is destroyed, no native callback reaches it, and a live
/// window's destruction leaves no slot that leads to its handle.
pub proof fn lemma_no_dispatch_after_destroy(slots: Seq<u64>, window_handle: u64, destroyed: bool, handle: u64)
    requires
        slots.len() == crate::registry::MAX_ACTIVE_WINDOWS,
    ensures
        !reaches(destroy_effect(slots, window_handle, destroyed), window_handle, true, handle),
        !destroyed ==> looked_up(destroy_effect(slots, window_handle, destroyed), window_handle) != Some(window_handle),
{
}

/// Attaching under a name already in use replaces the earlier handler: the
/// handlers are as if only the latest had been attached, names stay unique,
/// and the one handler of that name is the latest.
pub proof fn lemma_attach_replaces<H>(hs: Seq<(Seq<char>, H)>, name: Seq<char>, first: H, second: H)
    requires
        names_unique(hs),
    ensures
        attached(attached(hs, name, first), name, second) == attached(hs, name, second),
        names_unique(attached(hs, name, second)),
        has_name(attached(hs, name, second), name),
        forall|i: int| 0 <= i < attached(hs, name, second).len()
            && #[trigger] attached(hs, name, second)[i].0 == name ==> attached(hs, name, second)[i].1 == second,
{
    let once = attached(hs, name, first);
    let latest = attached(hs, name, second);
    if has_name(hs, name) {
        let k = name_index(hs, name);
        lemma_name_index(hs, name, k);
        assert(names_unique(once));
        lemma_name_index(once, name, k);
        assert(attached(once, name, second) =~= latest);
        assert(names_unique(latest));
        lemma_name_index(latest, name, k);
    } else {
        let k = hs.len() as int;
        assert(once[k].0 == name);
        assert(names_unique(once));
        lemma_name_index(once, name, k);
        assert(attached(once, name, second) =~= latest);
        assert(names_unique(latest));
        assert(latest[k].0 == name);
    }
}

/// Dispatch stops at the first handler that consumes the event: where the
/// first handler declines it and the second consumes it, both run and no
/// later handler does.
pub proof fn lemma_single_claim<H: Fn(&Event) -> bool>(
    hs: Seq<(Seq<char>, H)>,
    event: &Event,
    outcome: DispatchOutcome,
)
    requires
        hs.len() >= 2,
        forall|r: bool| #[trigger] hs[0].1.ensures((event,), r) ==> !r,
        forall|r: bool| #[trigger] hs[1].1.ensures((event,), r) ==> r,
        outcome != DispatchOutcome::Ignored,
        handlers_ran(hs, event, outcome),
    ensures
        outcome == DispatchOutcome::Consumed(1),
{
    match outcome {
        DispatchOutcome::Consumed(i) => {
            if i == 0 {
                assert(hs[0].1.ensures((event,), true));
            } else if i > 1 {
                assert(hs[1].1.ensures((event,), false));
            }
        },
        DispatchOutcome::Unclaimed => {
            assert(hs[1].1.ensures((event,), false));
        },
        DispatchOutcome::Ignored => {},
    }
}

} // verus!
