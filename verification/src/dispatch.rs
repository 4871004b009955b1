//! The per-request dispatch pipeline: first-match-wins over the registry.
//!
//! Each incoming request is offered to the registered modules in
//! registration order. The first module whose filter claims the request
//! handles it, and its result is returned at once; later modules are never
//! consulted for that request. When no module claims the request, the
//! absent result tells the caller to proceed with its default handling.

use crate::registry::Registry;
use vstd::prelude::*;

verus! {

/// The two capabilities every loaded module exposes, bound at load time:
/// a filter predicate and a handler. Module authors implement this
/// interface in independently compiled shared libraries; the host binds a
/// module only when both entry points resolved. Both operations are
/// modelled as deterministic functions of the module and the request: a
/// module must not let its answer depend on anything else.
pub trait Module<Req, Res> {
    /// Whether this module claims the given request. Left unspecified by
    /// default: a module bound outside the verifier keeps the default, and
    /// nothing is then known of its answers; implementations verified here
    /// override it.
    open spec fn spec_filter(&self, req: &Req) -> bool {
        vstd::pervasive::arbitrary()
    }

    /// The result this module produces for a request it has claimed. Left
    /// unspecified by default, like `spec_filter`.
    open spec fn spec_handle(&self, req: &Req) -> Res {
        vstd::pervasive::arbitrary()
    }

    /// Decides whether this module wants to handle the given request. A
    /// pure predicate: it must not observably mutate shared state.
    fn filter(&self, req: &Req) -> (claims: bool)
        ensures
            claims == self.spec_filter(req),
    ;

    /// Produces this module's result for a request it has claimed.
    fn handle(&self, req: &Req) -> (res: Res)
        ensures
            res == self.spec_handle(req),
    ;
}

/// What dispatching a request over a sequence of modules yields: the
/// result of the first module whose filter claims the request, or nothing
/// when no module claims it.
pub open spec fn dispatch_spec<Req, Res, M: Module<Req, Res>>(mods: Seq<M>, req: &Req) -> Option<
    Res,
>
    decreases mods.len(),
{
    if mods.len() == 0 {
        None
    } else if mods.first().spec_filter(req) {
        Some(mods.first().spec_handle(req))
    } else {
        dispatch_spec(mods.drop_first(), req)
    }
}

/// Whether module `i` is the one that claims the request: its filter
/// accepts, and every module registered before it declines.
pub open spec fn first_claimant<Req, Res, M: Module<Req, Res>>(
    mods: Seq<M>,
    req: &Req,
    i: int,
) -> bool {
    &&& 0 <= i < mods.len()
    &&& mods[i].spec_filter(req)
    &&& forall|j: int| 0 <= j < i ==> !mods[j].spec_filter(req)
}

/// Offers the request to the registered modules in registration order and
/// returns the first claiming module's result, or nothing when no module
/// claims it. Filter and handler are always invoked on the same module
/// instance, and the modules after the claiming one are never consulted.
pub fn pre_process<Req, Res, M: Module<Req, Res>>(registry: &Registry<M>, req: &Req) -> (res:
    Option<Res>)
    ensures
        res == dispatch_spec(registry@, req),
{
    let n: usize = registry.len();
    let mut i: usize = 0;
    proof {
        assert(registry@.skip(0) =~= registry@);
    }
    while i < n
        invariant
            n == registry@.len(),
            i <= n,
            dispatch_spec(registry@, req) == dispatch_spec::<Req, Res, M>(
                registry@.skip(i as int),
                req,
            ),
        decreases n - i,
    {
        let module = registry.get(i);
        proof {
            assert(registry@.skip(i as int).first() == registry@[i as int]);
        }
        if module.filter(req) {
            return Some(module.handle(req));
        }
        proof {
            assert(registry@.skip(i as int).drop_first() =~= registry@.skip(i as int + 1));
        }
        i = i + 1;
    }
    None
}

/// No modules, no claims: with nothing registered — a modules directory
/// that is absent, empty, or without loadable libraries — dispatch yields
/// the absent result for every request, and default handling proceeds.
pub proof fn lemma_empty_registry_unclaimed<Req, Res, M: Module<Req, Res>>(mods: Seq<M>, req: &Req)
    requires
        mods.len() == 0,
    ensures
        dispatch_spec(mods, req) is None,
{
}

/// First-match-wins: when module `i` is the first whose filter claims the
/// request, dispatch returns module `i`'s result — no matter how many
/// modules after `i` would also have claimed it, none of them handles it.
pub proof fn lemma_first_match_wins<Req, Res, M: Module<Req, Res>>(mods: Seq<M>, req: &Req, i: int)
    requires
        first_claimant(mods, req, i),
    ensures
        dispatch_spec(mods, req) == Some(mods[i].spec_handle(req)),
    decreases i,
{
    if i > 0 {
        assert(!mods[0].spec_filter(req));
        assert(forall|j: int| 0 <= j < i - 1 ==> mods.drop_first()[j] == mods[j + 1]);
        lemma_first_match_wins(mods.drop_first(), req, i - 1);
    }
}

/// No claim, no handling: dispatch yields the absent result exactly when
/// no module's filter claims the request; in particular an empty registry
/// never claims anything, and no handler runs for an unclaimed request.
pub proof fn lemma_unclaimed_iff<Req, Res, M: Module<Req, Res>>(mods: Seq<M>, req: &Req)
    ensures
        dispatch_spec(mods, req) is None <==> (forall|i: int|
            0 <= i < mods.len() ==> !mods[i].spec_filter(req)),
    decreases mods.len(),
{
    if mods.len() > 0 {
        lemma_unclaimed_iff(mods.drop_first(), req);
        assert(forall|j: int| 0 <= j < mods.len() - 1 ==> mods.drop_first()[j] == mods[j + 1]);
        if !mods.first().spec_filter(req) {
            assert(forall|i: int| 1 <= i < mods.len() ==> mods[i] == mods.drop_first()[i - 1]);
        }
    }
}

/// At most one module claims a request: the first claimant is unique, so
/// dispatching the same request over the same registry always selects the
/// same module. Together with `pre_process`'s contract — its result is a
/// function of the registry and the request alone — repeated calls with
/// the same arguments yield the same outcome.
pub proof fn lemma_claimant_unique<Req, Res, M: Module<Req, Res>>(
    mods: Seq<M>,
    req: &Req,
    i: int,
    j: int,
)
    requires
        first_claimant(mods, req, i),
        first_claimant(mods, req, j),
    ensures
        i == j,
{
}

/// A claimed result always comes from the first claiming module: whenever
/// dispatch yields a result, some module is the first claimant and the
/// result is that module's.
pub proof fn lemma_claimed_characterization<Req, Res, M: Module<Req, Res>>(mods: Seq<M>, req: &Req)
    ensures
        dispatch_spec(mods, req) is Some ==> exists|i: int|
            first_claimant(mods, req, i) && dispatch_spec(mods, req) == Some(
                mods[i].spec_handle(req),
            ),
    decreases mods.len(),
{
    if mods.len() > 0 && dispatch_spec(mods, req) is Some {
        if mods.first().spec_filter(req) {
            assert(first_claimant(mods, req, 0));
        } else {
            lemma_claimed_characterization(mods.drop_first(), req);
            assert(forall|j: int| 0 <= j < mods.len() - 1 ==> mods.drop_first()[j] == mods[j + 1]);
            let k = choose|k: int|
                first_claimant(mods.drop_first(), req, k) && dispatch_spec(
                    mods.drop_first(),
                    req,
                ) == Some(mods.drop_first()[k].spec_handle(req));
            assert(mods[k + 1].spec_filter(req));
            assert forall|j: int| 0 <= j < k + 1 implies !mods[j].spec_filter(req) by {
                if j > 0 {
                    assert(!mods.drop_first()[j - 1].spec_filter(req));
                }
            }
            assert(first_claimant(mods, req, k + 1));
        }
    }
}

/// A module with fixed behaviour: it claims either every request or none,
/// and returns one fixed result for any request it handles. Useful for
/// exercising the pipeline; real modules are bound at load time by the
/// host.
pub struct FixedModule<Res> {
    /// Whether this module claims requests.
    pub accept: bool,
    /// The result this module returns for every request it handles.
    pub result: Res,
}

impl<Req, Res: Copy> Module<Req, Res> for FixedModule<Res> {
    open spec fn spec_filter(&self, req: &Req) -> bool {
        self.accept
    }

    open spec fn spec_handle(&self, req: &Req) -> Res {
        self.result
    }

    fn filter(&self, _req: &Req) -> (claims: bool) {
        self.accept
    }

    fn handle(&self, _req: &Req) -> (res: Res) {
        self.result
    }
}

} // verus!
