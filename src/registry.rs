use vstd::prelude::*;

verus! {

/// Number of slots of a window registry.
pub const MAX_ACTIVE_WINDOWS: usize = 1024;

/// The slot that a native handle maps to.
pub open spec fn slot_of(handle: u64) -> int {
    handle as int % MAX_ACTIVE_WINDOWS as int
}

/// The slots after `handle` is registered: its slot now holds it, whatever
/// it held before.
pub open spec fn registered(slots: Seq<u64>, handle: u64) -> Seq<u64> {
    slots.update(slot_of(handle), handle)
}

/// The slots after `handle` is unregistered: its slot is cleared only where
/// it still holds `handle`.
pub open spec fn unregistered(slots: Seq<u64>, handle: u64) -> Seq<u64> {
    if handle != 0 && slots[slot_of(handle)] == handle {
        slots.update(slot_of(handle), 0)
    } else {
        slots
    }
}

/// The handle of the window that a native callback for `handle` reaches:
/// whatever window occupies that handle's slot, and none for the null handle
/// or an empty slot.
pub open spec fn looked_up(slots: Seq<u64>, handle: u64) -> Option<u64> {
    if handle == 0 || slots[slot_of(handle)] == 0 {
        None
    } else {
        Some(slots[slot_of(handle)])
    }
}

/// A fixed-capacity table from native window handles to the windows that
/// asked to receive events. A slot holds the handle of its window, or 0 when
/// it is empty; it never owns the window.
pub struct WindowRegistry {
    slots: Vec<u64>,
}

impl View for WindowRegistry {
    type V = Seq<u64>;

    closed spec fn view(&self) -> Seq<u64> {
        self.slots@
    }
}

impl WindowRegistry {
    /// The registry has exactly one slot for each index.
    pub open spec fn wf(&self) -> bool {
        self@.len() == MAX_ACTIVE_WINDOWS
    }

    /// An empty registry.
    pub fn new() -> (r: WindowRegistry)
        ensures
            r.wf(),
            forall|i: int| 0 <= i < MAX_ACTIVE_WINDOWS ==> #[trigger] r@[i] == 0,
    {
        let mut slots: Vec<u64> = Vec::new();
        let mut i: usize = 0;
        while i < MAX_ACTIVE_WINDOWS
            invariant
                i <= MAX_ACTIVE_WINDOWS,
                slots@.len() == i,
                forall|j: int| 0 <= j < i ==> #[trigger] slots@[j] == 0,
            decreases MAX_ACTIVE_WINDOWS - i,
        {
            slots.push(0);
            i = i + 1;
        }
        WindowRegistry { slots }
    }

    /// Stores `handle` in its slot, overwriting whatever window was there.
    pub fn register(&mut self, handle: u64)
        requires
            old(self).wf(),
            handle != 0,
        ensures
            final(self).wf(),
            final(self)@ == registered(old(self)@, handle),
    {
        let slot = (handle % (MAX_ACTIVE_WINDOWS as u64)) as usize;
        self.slots.set(slot, handle);
    }

    /// Clears the slot of `handle` if it still holds `handle`; a no-op where
    /// another window has taken the slot since.
    pub fn unregister(&mut self, handle: u64)
        requires
            old(self).wf(),
        ensures
            final(self).wf(),
            final(self)@ == unregistered(old(self)@, handle),
    {
        let slot = (handle % (MAX_ACTIVE_WINDOWS as u64)) as usize;
        if handle != 0 && self.slots[slot] == handle {
            self.slots.set(slot, 0);
        }
    }

    /// The handle of the window that a callback for `handle` reaches, or
    /// `None` for the null handle or an empty slot.
    pub fn lookup(&self, handle: u64) -> (r: Option<u64>)
        requires
            self.wf(),
        ensures
            r == looked_up(self@, handle),
    {
        if handle == 0 {
            return None;
        }
        let slot = (handle % (MAX_ACTIVE_WINDOWS as u64)) as usize;
        let held = self.slots[slot];
        if held == 0 {
            None
        } else {
            Some(held)
        }
    }
}

/// Two windows whose handles share a slot cannot both be reached: once the
/// second registers, callbacks for the first reach the second.
pub proof fn lemma_registry_collision(slots: Seq<u64>, first: u64, second: u64)
    requires
        slots.len() == MAX_ACTIVE_WINDOWS,
        first != 0,
        second != 0,
        slot_of(first) == slot_of(second),
    ensures
        looked_up(registered(registered(slots, first), second), first) == Some(second),
        looked_up(registered(registered(slots, first), second), second) == Some(second),
{
}

/// Unregistering twice leaves the slots as unregistering once.
pub proof fn lemma_unregister_idempotent(slots: Seq<u64>, handle: u64)
    requires
        slots.len() == MAX_ACTIVE_WINDOWS,
    ensures
        unregistered(unregistered(slots, handle), handle) == unregistered(slots, handle),
        looked_up(unregistered(slots, handle), handle) != Some(handle),
{
}

} // verus!
