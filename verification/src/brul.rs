//! A minimal application builder: state values by key, and tasks in the
//! order in which they were added.

use crate::error::BrulError;
use std::collections::HashMap;
use vstd::prelude::*;

verus! {

/// An application under construction.
#[non_exhaustive]
pub struct Brul<V, T> {
    state: HashMap<u64, V>,
    tasks: Vec<T>,
}

impl<V, T> Brul<V, T> {
    /// The state values, by key.
    pub closed spec fn states(&self) -> Map<u64, V> {
        self.state@
    }

    /// The tasks, in the order in which they were added.
    pub closed spec fn tasks(&self) -> Seq<T> {
        self.tasks@
    }

    /// An application without state and without tasks.
    pub fn new() -> (app: Self)
        ensures
            app.states() == Map::<u64, V>::empty(),
            app.tasks() == Seq::<T>::empty(),
    {
        Brul { state: HashMap::new(), tasks: Vec::new() }
    }

    /// An application without state and without tasks.
    pub fn build() -> (app: Self)
        ensures
            app.states() == Map::<u64, V>::empty(),
            app.tasks() == Seq::<T>::empty(),
    {
        Self::new()
    }

    /// Puts `state` under `key`, in place of what was there. The tasks stay.
    pub fn state(self, key: u64, state: V) -> (app: Self)
        ensures
            app.states() == self.states().insert(key, state),
            app.tasks() == self.tasks(),
    {
        broadcast use vstd::std_specs::hash::group_hash_axioms;

        let mut app = self;
        app.state.insert(key, state);
        app
    }

    /// Adds `process` behind the tasks added before. The state stays.
    pub fn add_task(self, process: T) -> (app: Self)
        ensures
            app.tasks() == self.tasks().push(process),
            app.states() == self.states(),
    {
        let mut app = self;
        app.tasks.push(process);
        app
    }

    /// Runs the application: there is nothing to run yet, and nothing fails.
    pub fn run(self) -> (outcome: Result<(), BrulError>)
        ensures
            outcome is Ok,
    {
        Ok(())
    }
}

impl<V, T> Default for Brul<V, T> {
    fn default() -> (app: Self)
        ensures
            app.states() == Map::<u64, V>::empty(),
            app.tasks() == Seq::<T>::empty(),
    {
        Brul::new()
    }
}

} // verus!
