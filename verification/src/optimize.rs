//! The steps of an optimization that are decided here.
//!
//! The search for parameters is the work of an optimizer outside this
//! library. An optimization therefore goes in two steps: the first says
//! whether the optimizer is to be asked at all, and with what request; the
//! second takes what the optimizer found, if anything, and gives the
//! solution in canonical form.
use vstd::prelude::*;
use crate::dag::Dag;
use crate::double::Double;
use crate::options::{
    search_request, spec_search_request, Options, ParameterDomains, SearchRequest,
};
use crate::solution::{
    no_dag_solution, no_solution, DagSolution, DagSolutionView, Solution, SoloKeySolution,
};

verus! {

/// The request for the parameters of one table lookup.
#[derive(Clone, Copy, Debug)]
pub struct BootstrapRequest {
    /// The number of ciphertexts summed before the lookup.
    pub sum_size: u64,
    /// The precision of the lookup's input, in bits.
    pub precision: u64,
    /// The factor by which the sum scales the noise.
    pub noise_factor: Double,
    pub search: SearchRequest,
}

/// The first step of the optimization of a graph under a single parameter
/// set.
#[derive(Debug)]
pub enum DagOptimization {
    /// The solution is known without a search.
    Settled(DagSolution),
    /// The optimizer is to be asked, with this request.
    AskOptimizer(SearchRequest),
}

/// The request for the parameters of one table lookup on an input of
/// `precision` bits: a sum of one ciphertext, under the given options.
pub fn optimize_bootstrap(
    precision: u64,
    noise_factor: Double,
    options: &Options,
    defaults: &ParameterDomains,
) -> (request: BootstrapRequest)
    ensures
        request.sum_size == 1,
        request.precision == precision,
        request.noise_factor == noise_factor,
        request.search == spec_search_request(*options, *defaults),
{
    BootstrapRequest {
        sum_size: 1,
        precision,
        noise_factor,
        search: search_request(options, defaults),
    }
}

/// The solution of a table lookup, given what the optimizer found: that
/// solution itself, or the sentinel of no solution where it found none.
pub fn bootstrap_solution(best: Option<Solution>) -> (s: Solution)
    ensures
        s == match best {
            Some(found) => found,
            None => Solution::spec_none(),
        },
{
    match best {
        Some(found) => found,
        None => no_solution(),
    }
}

impl Dag {
    /// The first step of the optimization under a single parameter set. A
    /// composed graph has no solution of that kind: the step is settled with
    /// the sentinel of no solution, and the optimizer is not asked.
    pub fn optimize(&self, options: &Options, defaults: &ParameterDomains) -> (step:
        DagOptimization)
        ensures
            self@.is_composed() ==> (step matches DagOptimization::Settled(s) && s@
                == DagSolutionView::none()),
            !self@.is_composed() ==> (step matches DagOptimization::AskOptimizer(request)
                && request == spec_search_request(*options, *defaults)),
    {
        if self.is_composed() {
            DagOptimization::Settled(no_dag_solution())
        } else {
            DagOptimization::AskOptimizer(search_request(options, defaults))
        }
    }

    /// The request for the optimization of the graph under several parameter
    /// sets. Composed graphs are optimized this way.
    pub fn optimize_multi(&self, options: &Options, defaults: &ParameterDomains) -> (request:
        SearchRequest)
        ensures
            request == spec_search_request(*options, *defaults),
    {
        search_request(options, defaults)
    }
}

/// The second step of the optimization of a graph under a single parameter
/// set: the canonical form of what the optimizer found, or the sentinel of
/// no solution where it found nothing.
pub fn dag_solution(found: Option<SoloKeySolution>) -> (s: DagSolution)
    ensures
        s@ == match found {
            Some(solution) => solution.canonical(),
            None => DagSolutionView::none(),
        },
{
    match found {
        Some(solution) => DagSolution::from_solo_key(solution),
        None => no_dag_solution(),
    }
}

} // verus!
