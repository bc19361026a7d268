use vstd::prelude::*;

use crate::component::{Component, Step};

verus! {

/// A set of components, each run as its own concurrent stage.
///
/// A feedable pipeline also takes frames handed to it from outside its own
/// source: that is how a recovery stage receives diverted frames.
pub struct Pipeline {
    stages: Vec<Component>,
    feedable: bool,
}

impl Pipeline {
    /// The stages' steps, in the order they were linked.
    pub closed spec fn stages(&self) -> Seq<Seq<Step>> {
        self.stages@.map_values(|c: Component| c@)
    }

    /// Whether frames may be fed in from outside.
    pub closed spec fn is_feedable_spec(&self) -> bool {
        self.feedable
    }

    /// A pipeline with no stages.
    pub fn new() -> (r: Pipeline)
        ensures
            r.stages() == Seq::<Seq<Step>>::empty(),
            !r.is_feedable_spec(),
    {
        let r = Pipeline { stages: Vec::new(), feedable: false };
        assert(r.stages() =~= Seq::<Seq<Step>>::empty());
        r
    }

    /// The pipeline with `component` added as one more stage.
    pub fn link(self, component: Component) -> (r: Pipeline)
        ensures
            r.stages() == self.stages().push(component@),
            r.is_feedable_spec() == self.is_feedable_spec(),
    {
        let ghost c = component@;
        let mut stages = self.stages;
        stages.push(component);
        let r = Pipeline { stages, feedable: self.feedable };
        assert(r.stages() =~= self.stages().push(c));
        r
    }

    /// A pipeline of the one stage `component`, as a recovery stage is.
    pub fn singleton(component: Component) -> (r: Pipeline)
        ensures
            r.stages() == seq![component@],
            !r.is_feedable_spec(),
    {
        let r = Pipeline::new().link(component);
        assert(r.stages() =~= seq![component@]);
        r
    }

    /// The same pipeline, marked to take frames fed in from outside.
    pub fn feedable(self) -> (r: Pipeline)
        ensures
            r.stages() == self.stages(),
            r.is_feedable_spec(),
    {
        Pipeline { stages: self.stages, feedable: true }
    }

    /// Whether frames may be fed in from outside.
    pub fn is_feedable(&self) -> (r: bool)
        ensures
            r == self.is_feedable_spec(),
    {
        self.feedable
    }

    /// The number of stages.
    pub fn stage_count(&self) -> (r: usize)
        ensures
            r == self.stages().len(),
    {
        self.stages.len()
    }

    /// The stages, to be run.
    pub fn into_stages(self) -> (r: Vec<Component>)
        ensures
            r@.map_values(|c: Component| c@) == self.stages(),
    {
        self.stages
    }
}

} // verus!
