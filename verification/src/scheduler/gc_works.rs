use vstd::prelude::*;
use crate::util::address::{Address, ObjectReference};

verus! {

/// The plans whose edges a `StopMutators` packet hands to the collector.
#[derive(Clone, Copy, Debug, PartialEq, Eq, Structural)]
pub enum EdgeProcessor {
    MyGC,
    TripleSpace,
}

/// A packet of collection work.
#[derive(Clone, Copy, Debug, PartialEq, Eq, Structural)]
pub enum Work {
    /// Stops the mutators and scans their roots, processing edges as the plan does.
    StopMutators(EdgeProcessor),
    /// Prepares the plan, the collectors and the mutators.
    Prepare,
    /// Releases the plan, the collectors and the mutators.
    Release,
    /// Ends the collection and resumes the mutators.
    EndOfGC,
}

/// The work queues of a collection, one per stage, and the packet that ends it.
pub struct Scheduler {
    pub unconstrained_works: Vec<Work>,
    pub prepare_stage: Vec<Work>,
    pub release_stage: Vec<Work>,
    pub final_stage: Vec<Work>,
    pub finalizer: Option<Work>,
}

impl Scheduler {
    pub fn new() -> (r: Self)
        ensures
            r.unconstrained_works@ == Seq::<Work>::empty(),
            r.prepare_stage@ == Seq::<Work>::empty(),
            r.release_stage@ == Seq::<Work>::empty(),
            r.final_stage@ == Seq::<Work>::empty(),
            r.finalizer is None,
    {
        Scheduler {
            unconstrained_works: Vec::new(),
            prepare_stage: Vec::new(),
            release_stage: Vec::new(),
            final_stage: Vec::new(),
            finalizer: None,
        }
    }

    pub fn set_finalizer(&mut self, work: Option<Work>)
        ensures
            final(self).finalizer == work,
            final(self).unconstrained_works@ == old(self).unconstrained_works@,
            final(self).prepare_stage@ == old(self).prepare_stage@,
            final(self).release_stage@ == old(self).release_stage@,
            final(self).final_stage@ == old(self).final_stage@,
    {
        self.finalizer = work;
    }
}

/// The edges that a packet processes, and the objects that tracing them reached
/// for the first time, which are scanned next.
pub struct ProcessEdgesBase {
    pub edges: Vec<Address>,
    pub nodes: Vec<ObjectReference>,
}

impl ProcessEdgesBase {
    pub fn new(edges: Vec<Address>) -> (r: Self)
        ensures
            r.edges@ == edges@,
            r.nodes@ == Seq::<ObjectReference>::empty(),
    {
        ProcessEdgesBase { edges, nodes: Vec::new() }
    }

    /// Queues `object` to be scanned.
    pub fn process_node(&mut self, object: ObjectReference)
        ensures
            final(self).nodes@ == old(self).nodes@.push(object),
            final(self).edges@ == old(self).edges@,
    {
        self.nodes.push(object);
    }
}

} // verus!
