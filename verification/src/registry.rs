//! The module registry and its construction from load outcomes.
//!
//! At startup the host attempts to load every candidate shared library it
//! discovered. Each attempt either yields a usable module — both required
//! entry points bound — or fails; a failure is logged by the host and must
//! never keep other candidates from being registered. The registry keeps
//! the successfully loaded modules, in discovery order, and is immutable
//! once the server starts serving requests.

use vstd::prelude::*;

verus! {

/// The outcome of one attempt to load a candidate shared library: either a
/// fully usable module (both entry points bound), or a failure. A partially
/// bound module is not a valid outcome — it is a failure.
pub enum LoadOutcome<M> {
    Loaded(M),
    Failed,
}

/// The modules that a sequence of load outcomes contributes to the
/// registry: every successfully loaded module, in discovery order; failed
/// attempts contribute nothing.
pub open spec fn loaded_modules<M>(outcomes: Seq<LoadOutcome<M>>) -> Seq<M>
    decreases outcomes.len(),
{
    if outcomes.len() == 0 {
        Seq::empty()
    } else {
        match outcomes.last() {
            LoadOutcome::Loaded(m) => loaded_modules(outcomes.drop_last()).push(m),
            LoadOutcome::Failed => loaded_modules(outcomes.drop_last()),
        }
    }
}

/// How many of the outcomes were successful loads.
pub open spec fn successful_loads<M>(outcomes: Seq<LoadOutcome<M>>) -> nat
    decreases outcomes.len(),
{
    if outcomes.len() == 0 {
        0
    } else {
        match outcomes.last() {
            LoadOutcome::Loaded(_) => successful_loads(outcomes.drop_last()) + 1,
            LoadOutcome::Failed => successful_loads(outcomes.drop_last()),
        }
    }
}

/// The ordered collection of successfully loaded modules. Built once at
/// startup, in discovery order; read-only afterwards.
pub struct Registry<M> {
    mods: Vec<M>,
}

impl<M> View for Registry<M> {
    type V = Seq<M>;

    closed spec fn view(&self) -> Seq<M> {
        self.mods@
    }
}

impl<M> Registry<M> {
    /// The empty registry: the state before any load attempt, and the
    /// steady state when no modules are configured.
    pub fn new() -> (registry: Registry<M>)
        ensures
            registry@ == Seq::<M>::empty(),
    {
        Registry { mods: Vec::new() }
    }

    /// Appends one successfully loaded module; registration order is
    /// discovery order.
    pub fn register(&mut self, module: M)
        ensures
            final(self)@ == old(self)@.push(module),
    {
        self.mods.push(module);
    }

    /// How many modules were registered.
    pub fn len(&self) -> (n: usize)
        ensures
            n == self@.len(),
    {
        self.mods.len()
    }

    /// The module at a registration position.
    pub fn get(&self, i: usize) -> (module: &M)
        requires
            i < self@.len(),
        ensures
            *module == self@[i as int],
    {
        &self.mods[i]
    }

    /// Builds the registry from the outcomes of all load attempts, taken in
    /// discovery order: every successfully loaded module is registered, in
    /// order; every failure is skipped. The registry's size is therefore the
    /// number of successful loads only.
    pub fn from_outcomes(outcomes: Vec<LoadOutcome<M>>) -> (registry: Registry<M>)
        ensures
            registry@ == loaded_modules(outcomes@),
            registry@.len() == successful_loads(outcomes@),
    {
        let ghost all: Seq<LoadOutcome<M>> = outcomes@;
        let mut rest = outcomes;
        let mut registry = Registry::new();
        while rest.len() > 0
            invariant
                rest@.len() <= all.len(),
                rest@ == all.skip(all.len() - rest@.len()),
                registry@ == loaded_modules(all.take(all.len() - rest@.len())),
            decreases rest@.len(),
        {
            let ghost k: int = all.len() - rest@.len();
            let outcome = rest.remove(0);
            proof {
                assert(outcome == all[k]);
                assert(rest@ =~= all.skip(k + 1));
                assert(all.take(k + 1).drop_last() =~= all.take(k));
                assert(all.take(k + 1).last() == all[k]);
            }
            match outcome {
                LoadOutcome::Loaded(module) => registry.register(module),
                LoadOutcome::Failed => (),
            }
        }
        proof {
            assert(all.take(all.len() as int) =~= all);
            lemma_registry_size_counts_successes(all);
        }
        registry
    }
}

/// The registry's size equals the count of successful loads alone: failed
/// attempts are never represented in it.
pub proof fn lemma_registry_size_counts_successes<M>(outcomes: Seq<LoadOutcome<M>>)
    ensures
        loaded_modules(outcomes).len() == successful_loads(outcomes),
    decreases outcomes.len(),
{
    if outcomes.len() > 0 {
        lemma_registry_size_counts_successes(outcomes.drop_last());
    }
}

/// A failed load attempt leaves no trace: the registry built from outcomes
/// with a failure inserted among them equals the registry built without it.
/// A failure for one candidate therefore never keeps a module discovered
/// before or after it from being registered.
pub proof fn lemma_failure_isolated<M>(pre: Seq<LoadOutcome<M>>, post: Seq<LoadOutcome<M>>)
    ensures
        loaded_modules(pre.push(LoadOutcome::Failed) + post) == loaded_modules(pre + post),
    decreases post.len(),
{
    if post.len() == 0 {
        assert(pre.push(LoadOutcome::<M>::Failed) + post =~= pre.push(LoadOutcome::Failed));
        assert(pre + post =~= pre);
        assert(pre.push(LoadOutcome::<M>::Failed).drop_last() =~= pre);
    } else {
        lemma_failure_isolated(pre, post.drop_last());
        assert((pre.push(LoadOutcome::<M>::Failed) + post).drop_last() =~= pre.push(
            LoadOutcome::Failed,
        ) + post.drop_last());
        assert((pre + post).drop_last() =~= pre + post.drop_last());
        assert((pre.push(LoadOutcome::<M>::Failed) + post).last() == post.last());
        assert((pre + post).last() == post.last());
    }
}

} // verus!
