//! The builder of an application: it gathers the configuration, the initial
//! state, the set-up hooks and the tasks, and hands them over in one piece.

use crate::state::StateManager;
use std::collections::HashMap;
use vstd::prelude::*;

verus! {

/// What a builder hands over: the configuration as it was given, a registry
/// seeded with the managed state, and the hooks and tasks in the order in
/// which they were added.
pub struct AppParts<C, V, T, H> {
    pub config: C,
    pub state: StateManager<V>,
    pub tasks: Vec<T>,
    pub setup_hooks: Vec<H>,
}

/// Gathers what an application is made of.
///
/// `C` is the configuration, which the builder only passes on; `V` the type
/// of a managed state value; `T` a task and `H` a set-up hook.
pub struct AppBuilder<C, V, T, H> {
    config: C,
    setup_hooks: Vec<H>,
    managed_states: HashMap<u64, V>,
    tasks: Vec<T>,
}

impl<C, V, T, H> AppBuilder<C, V, T, H> {
    /// The configuration.
    pub closed spec fn configuration(&self) -> C {
        self.config
    }

    /// The set-up hooks, in the order in which they were added.
    pub closed spec fn setup_hooks(&self) -> Seq<H> {
        self.setup_hooks@
    }

    /// The managed state values, by key.
    pub closed spec fn managed(&self) -> Map<u64, V> {
        self.managed_states@
    }

    /// The tasks, in the order in which they were added.
    pub closed spec fn tasks(&self) -> Seq<T> {
        self.tasks@
    }

    /// A builder with the default configuration and nothing else.
    pub fn new() -> (builder: Self) where C: Default
        ensures
            call_ensures(C::default, (), builder.configuration()),
            builder.setup_hooks() == Seq::<H>::empty(),
            builder.managed() == Map::<u64, V>::empty(),
            builder.tasks() == Seq::<T>::empty(),
    {
        AppBuilder {
            config: C::default(),
            setup_hooks: Vec::new(),
            managed_states: HashMap::new(),
            tasks: Vec::new(),
        }
    }

    /// Replaces the configuration.
    pub fn config(self, config: C) -> (builder: Self)
        ensures
            builder.configuration() == config,
            builder.setup_hooks() == self.setup_hooks(),
            builder.managed() == self.managed(),
            builder.tasks() == self.tasks(),
    {
        let mut builder = self;
        builder.config = config;
        builder
    }

    /// Adds a set-up hook behind those added before.
    pub fn setup(self, setup_fn: H) -> (builder: Self)
        ensures
            builder.setup_hooks() == self.setup_hooks().push(setup_fn),
            builder.configuration() == self.configuration(),
            builder.managed() == self.managed(),
            builder.tasks() == self.tasks(),
    {
        let mut builder = self;
        builder.setup_hooks.push(setup_fn);
        builder
    }

    /// Puts `state` under `key` into the initial state, in place of what was
    /// there.
    pub fn manage(self, key: u64, state: V) -> (builder: Self)
        ensures
            builder.managed() == self.managed().insert(key, state),
            builder.configuration() == self.configuration(),
            builder.setup_hooks() == self.setup_hooks(),
            builder.tasks() == self.tasks(),
    {
        broadcast use vstd::std_specs::hash::group_hash_axioms;

        let mut builder = self;
        builder.managed_states.insert(key, state);
        builder
    }

    /// Adds a task behind those added before.
    pub fn add_task(self, task: T) -> (builder: Self)
        ensures
            builder.tasks() == self.tasks().push(task),
            builder.configuration() == self.configuration(),
            builder.setup_hooks() == self.setup_hooks(),
            builder.managed() == self.managed(),
    {
        let mut builder = self;
        builder.tasks.push(task);
        builder
    }

    /// Takes a listener and leaves the builder as it is: listeners are not
    /// part of an application yet.
    pub fn add_listener<L>(self, _listener: L) -> (builder: Self)
        ensures
            builder == self,
    {
        self
    }

    /// Hands over what was gathered. The registry holds exactly the managed
    /// state; the hooks have not run.
    pub fn build(self) -> (parts: AppParts<C, V, T, H>)
        ensures
            parts.config == self.configuration(),
            parts.state@ == self.managed(),
            parts.tasks@ == self.tasks(),
            parts.setup_hooks@ == self.setup_hooks(),
    {
        AppParts {
            config: self.config,
            state: StateManager::seeded(self.managed_states),
            tasks: self.tasks,
            setup_hooks: self.setup_hooks,
        }
    }
}

} // verus!
