//! Kernel Descriptor & Registry: the ordered table of kernel variants,
//! and the rule that a run proceeds only when every variant built.
//!
//! The registry is an immutable, injected list rather than process-wide
//! mutable state; adding a variant means appending one descriptor.
//! Declaration order is kept and drives all reporting. A variant's
//! identity is its name, unique within a run.

use vstd::prelude::*;

verus! {

/// One registered kernel variant: identity, program source location,
/// entry-point name, and dispatch tile shape.
pub struct KernelDescriptor {
    pub name: String,
    pub source_path: String,
    pub entry_point: String,
    pub tile_width: u32,
    pub tile_height: u32,
}

/// The build-time failures; each is fatal to the whole run, since an
/// unusable variant would invalidate comparative results.
#[derive(Debug)]
pub enum BuildError {
    NoDeviceAvailable,
    SourceUnavailable,
    CompileError { diagnostic: String },
    EntryPointNotFound,
    PipelineCreationError,
}

/// The ordered table of registered kernel variants.
pub struct KernelRegistry {
    pub descriptors: Vec<KernelDescriptor>,
}

impl KernelRegistry {
    /// No two registered variants share a name.
    pub open spec fn wf(self) -> bool {
        forall|i: int, j: int|
            0 <= i < j < self.descriptors.len() ==> self.descriptors[i].name@
                != self.descriptors[j].name@
    }

    /// Some registered variant bears this name.
    pub open spec fn contains_name(self, name: Seq<char>) -> bool {
        exists|i: int| 0 <= i < self.descriptors.len() && self.descriptors[i].name@ == name
    }

    /// An empty registry.
    pub fn new() -> (r: KernelRegistry)
        ensures
            r.descriptors.len() == 0,
            r.wf(),
    {
        KernelRegistry { descriptors: Vec::new() }
    }

    /// Number of registered variants.
    pub fn len(&self) -> (r: usize)
        ensures
            r == self.descriptors.len(),
    {
        self.descriptors.len()
    }

    /// The variant at one position of the declaration order.
    pub fn get(&self, i: usize) -> (r: &KernelDescriptor)
        requires
            i < self.descriptors.len(),
        ensures
            r == self.descriptors[i as int],
    {
        &self.descriptors[i]
    }

    /// Position of the variant bearing `name`, if one is registered.
    pub fn find(&self, name: &String) -> (r: Option<usize>)
        ensures
            match r {
                Some(i) => i < self.descriptors.len() && self.descriptors[i as int].name@
                    == name@,
                None => !self.contains_name(name@),
            },
    {
        let mut i: usize = 0;
        while i < self.descriptors.len()
            invariant
                i <= self.descriptors.len(),
                forall|j: int| 0 <= j < i ==> self.descriptors[j].name@ != name@,
            decreases self.descriptors.len() - i,
        {
            if self.descriptors[i].name == *name {
                return Some(i);
            }
            i = i + 1;
        }
        None
    }

    /// Appends one variant; a duplicate name is refused and the registry
    /// left unchanged.
    pub fn register(&mut self, descriptor: KernelDescriptor) -> (r: bool)
        requires
            old(self).wf(),
        ensures
            final(self).wf(),
            r == !old(self).contains_name(descriptor.name@),
            r ==> final(self).descriptors@ == old(self).descriptors@.push(descriptor),
            !r ==> final(self).descriptors@ == old(self).descriptors@,
    {
        match self.find(&descriptor.name) {
            Some(_) => false,
            None => {
                let ghost prev = self.descriptors@;
                self.descriptors.push(descriptor);
                proof {
                    assert forall|i: int, j: int|
                        0 <= i < j < self.descriptors.len() implies self.descriptors[i].name@
                        != self.descriptors[j].name@ by {
                        if j == prev.len() {
                            assert(self.descriptors[i].name@ == prev[i].name@);
                        }
                    }
                }
                true
            },
        }
    }
}

/// Compiling the registered variants either yields a pipeline for each
/// or aborts the whole run at the first failure, before any correctness
/// check or benchmark executes. Returns the position of the first failed
/// build outcome, if any.
pub fn first_build_failure<T>(outcomes: &Vec<Result<T, BuildError>>) -> (r: Option<usize>)
    ensures
        match r {
            Some(i) => i < outcomes.len() && outcomes[i as int] is Err && forall|j: int|
                0 <= j < i ==> outcomes[j] is Ok,
            None => forall|j: int| 0 <= j < outcomes.len() ==> outcomes[j] is Ok,
        },
{
    let mut i: usize = 0;
    while i < outcomes.len()
        invariant
            i <= outcomes.len(),
            forall|j: int| 0 <= j < i ==> outcomes[j] is Ok,
        decreases outcomes.len() - i,
    {
        if outcomes[i].is_err() {
            return Some(i);
        }
        i = i + 1;
    }
    None
}

} // verus!
