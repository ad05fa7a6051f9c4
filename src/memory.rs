use vstd::prelude::*;

verus! {

/// The tracing toggle of the allocator that serves the internal heap.
pub struct GlobalTracingAlloc {
    tracing: bool,
}

/// The tracing toggle of the allocator that serves the external (PSRAM)
/// heap. Clones copy only the flag: the heap itself is shared by all of them.
#[derive(Clone, Copy)]
pub struct PSRAMTracingAlloc {
    tracing: bool,
}

impl GlobalTracingAlloc {
    pub closed spec fn tracing(&self) -> bool {
        self.tracing
    }

    pub fn new() -> (r: Self)
        ensures
            !r.tracing(),
    {
        GlobalTracingAlloc { tracing: false }
    }

    pub fn start_tracing(&mut self)
        ensures
            final(self).tracing(),
    {
        self.tracing = true;
    }

    pub fn stop_tracing(&mut self)
        ensures
            !final(self).tracing(),
    {
        self.tracing = false;
    }

    pub fn is_tracing(&self) -> (r: bool)
        ensures
            r == self.tracing(),
    {
        self.tracing
    }
}

impl PSRAMTracingAlloc {
    pub closed spec fn tracing(&self) -> bool {
        self.tracing
    }

    pub fn start_tracing(&mut self)
        ensures
            final(self).tracing(),
    {
        self.tracing = true;
    }

    pub fn stop_tracing(&mut self)
        ensures
            !final(self).tracing(),
    {
        self.tracing = false;
    }

    pub fn is_tracing(&self) -> (r: bool)
        ensures
            r == self.tracing(),
    {
        self.tracing
    }

    /// A copy that carries the same tracing flag.
    pub fn duplicate(&self) -> (r: Self)
        ensures
            r.tracing() == self.tracing(),
    {
        PSRAMTracingAlloc { tracing: self.tracing }
    }
}

impl Default for PSRAMTracingAlloc {
    fn default() -> (r: Self)
        ensures
            !r.tracing(),
    {
        PSRAMTracingAlloc { tracing: false }
    }
}

/// The tracing toggles of both heaps.
pub struct Heaps {
    pub internal: GlobalTracingAlloc,
    pub external: PSRAMTracingAlloc,
}

impl Heaps {
    pub fn new() -> (r: Self)
        ensures
            !r.internal.tracing(),
            !r.external.tracing(),
    {
        Heaps { internal: GlobalTracingAlloc::new(), external: PSRAMTracingAlloc::default() }
    }
}

/// Turns on tracing of the internal heap; the external one is untouched.
pub fn start_tracing(h: &mut Heaps)
    ensures
        final(h).internal.tracing(),
        final(h).external.tracing() == old(h).external.tracing(),
{
    h.internal.start_tracing();
}

/// Turns off tracing of the internal heap; the external one is untouched.
pub fn stop_tracing(h: &mut Heaps)
    ensures
        !final(h).internal.tracing(),
        final(h).external.tracing() == old(h).external.tracing(),
{
    h.internal.stop_tracing();
}

/// Turns on tracing of the external heap; the internal one is untouched.
pub fn start_other_tracing(h: &mut Heaps)
    ensures
        final(h).external.tracing(),
        final(h).internal.tracing() == old(h).internal.tracing(),
{
    h.external.start_tracing();
}

/// Turns off tracing of the external heap; the internal one is untouched.
pub fn stop_other_tracing(h: &mut Heaps)
    ensures
        !final(h).external.tracing(),
        final(h).internal.tracing() == old(h).internal.tracing(),
{
    h.external.stop_tracing();
}

/// The two heaps that can serve an allocation.
#[derive(Clone, Copy, PartialEq, Eq, Structural)]
pub enum HeapTarget {
    Internal,
    External,
}

/// The heap that serves what is tagged external, and that receives the
/// PSRAM region: the dedicated external heap, or in unified mode the sole
/// process heap.
pub fn external_target(unified: bool) -> (r: HeapTarget)
    ensures
        unified ==> r == HeapTarget::Internal,
        !unified ==> r == HeapTarget::External,
{
    if unified {
        HeapTarget::Internal
    } else {
        HeapTarget::External
    }
}

} // verus!
