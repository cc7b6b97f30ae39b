//! Parameter solutions and their canonical form.
//!
//! The optimizer answers in one of several shapes: a plain bootstrap
//! [`Solution`], or for a whole graph a [`SoloKeySolution`] that is either the
//! standard variant or the one without padding bit. All of them are brought
//! into one canonical record, the [`DagSolution`]. That the optimizer found
//! nothing is no error: it is the canonical record whose error probability is
//! one.
use vstd::prelude::*;
use crate::double::Double;

verus! {

/// The parameters chosen for a single table lookup.
#[derive(Clone, Copy, Debug)]
pub struct Solution {
    pub input_lwe_dimension: u64,
    pub internal_ks_output_lwe_dimension: u64,
    pub ks_decomposition_level_count: u64,
    pub ks_decomposition_base_log: u64,
    pub glwe_polynomial_size: u64,
    pub glwe_dimension: u64,
    pub br_decomposition_level_count: u64,
    pub br_decomposition_base_log: u64,
    pub complexity: Double,
    pub noise_max: Double,
    pub p_error: Double,
}

impl Solution {
    /// The solution with every field at zero.
    pub open spec fn spec_default() -> Solution {
        Solution {
            input_lwe_dimension: 0,
            internal_ks_output_lwe_dimension: 0,
            ks_decomposition_level_count: 0,
            ks_decomposition_base_log: 0,
            glwe_polynomial_size: 0,
            glwe_dimension: 0,
            br_decomposition_level_count: 0,
            br_decomposition_base_log: 0,
            complexity: Double::spec_zero(),
            noise_max: Double::spec_zero(),
            p_error: Double::spec_zero(),
        }
    }

    /// The sentinel for "no parameters exist": an error probability of one,
    /// every other field at zero.
    pub open spec fn spec_none() -> Solution {
        Solution { p_error: Double::spec_one(), ..Solution::spec_default() }
    }
}

impl Default for Solution {
    fn default() -> (s: Solution)
        ensures
            s == Solution::spec_default(),
    {
        Solution {
            input_lwe_dimension: 0,
            internal_ks_output_lwe_dimension: 0,
            ks_decomposition_level_count: 0,
            ks_decomposition_base_log: 0,
            glwe_polynomial_size: 0,
            glwe_dimension: 0,
            br_decomposition_level_count: 0,
            br_decomposition_base_log: 0,
            complexity: Double::zero(),
            noise_max: Double::zero(),
            p_error: Double::zero(),
        }
    }
}

/// The canonical record of a parameter choice for a whole graph.
///
/// The four `cb_` and `pp_` fields and `crt_decomposition` are meaningful only
/// where `use_wop_pbs` is set.
#[derive(Debug)]
pub struct DagSolution {
    pub input_lwe_dimension: u64,
    pub internal_ks_output_lwe_dimension: u64,
    pub ks_decomposition_level_count: u64,
    pub ks_decomposition_base_log: u64,
    pub glwe_polynomial_size: u64,
    pub glwe_dimension: u64,
    pub br_decomposition_level_count: u64,
    pub br_decomposition_base_log: u64,
    pub complexity: Double,
    pub noise_max: Double,
    pub p_error: Double,
    pub global_p_error: Double,
    pub use_wop_pbs: bool,
    pub cb_decomposition_level_count: u64,
    pub cb_decomposition_base_log: u64,
    pub pp_decomposition_level_count: u64,
    pub pp_decomposition_base_log: u64,
    pub crt_decomposition: Vec<u64>,
}

/// A [`DagSolution`] as a mathematical value.
pub struct DagSolutionView {
    pub input_lwe_dimension: u64,
    pub internal_ks_output_lwe_dimension: u64,
    pub ks_decomposition_level_count: u64,
    pub ks_decomposition_base_log: u64,
    pub glwe_polynomial_size: u64,
    pub glwe_dimension: u64,
    pub br_decomposition_level_count: u64,
    pub br_decomposition_base_log: u64,
    pub complexity: Double,
    pub noise_max: Double,
    pub p_error: Double,
    pub global_p_error: Double,
    pub use_wop_pbs: bool,
    pub cb_decomposition_level_count: u64,
    pub cb_decomposition_base_log: u64,
    pub pp_decomposition_level_count: u64,
    pub pp_decomposition_base_log: u64,
    pub crt_decomposition: Seq<u64>,
}

impl View for DagSolution {
    type V = DagSolutionView;

    open spec fn view(&self) -> DagSolutionView {
        DagSolutionView {
            input_lwe_dimension: self.input_lwe_dimension,
            internal_ks_output_lwe_dimension: self.internal_ks_output_lwe_dimension,
            ks_decomposition_level_count: self.ks_decomposition_level_count,
            ks_decomposition_base_log: self.ks_decomposition_base_log,
            glwe_polynomial_size: self.glwe_polynomial_size,
            glwe_dimension: self.glwe_dimension,
            br_decomposition_level_count: self.br_decomposition_level_count,
            br_decomposition_base_log: self.br_decomposition_base_log,
            complexity: self.complexity,
            noise_max: self.noise_max,
            p_error: self.p_error,
            global_p_error: self.global_p_error,
            use_wop_pbs: self.use_wop_pbs,
            cb_decomposition_level_count: self.cb_decomposition_level_count,
            cb_decomposition_base_log: self.cb_decomposition_base_log,
            pp_decomposition_level_count: self.pp_decomposition_level_count,
            pp_decomposition_base_log: self.pp_decomposition_base_log,
            crt_decomposition: self.crt_decomposition@,
        }
    }
}

impl DagSolutionView {
    /// The record with every number at zero, the flag unset and no moduli.
    pub open spec fn default() -> DagSolutionView {
        DagSolutionView {
            input_lwe_dimension: 0,
            internal_ks_output_lwe_dimension: 0,
            ks_decomposition_level_count: 0,
            ks_decomposition_base_log: 0,
            glwe_polynomial_size: 0,
            glwe_dimension: 0,
            br_decomposition_level_count: 0,
            br_decomposition_base_log: 0,
            complexity: Double::spec_zero(),
            noise_max: Double::spec_zero(),
            p_error: Double::spec_zero(),
            global_p_error: Double::spec_zero(),
            use_wop_pbs: false,
            cb_decomposition_level_count: 0,
            cb_decomposition_base_log: 0,
            pp_decomposition_level_count: 0,
            pp_decomposition_base_log: 0,
            crt_decomposition: Seq::empty(),
        }
    }

    /// The sentinel for "no parameters exist": an error probability of one,
    /// everything else as in [`DagSolutionView::default`].
    pub open spec fn none() -> DagSolutionView {
        DagSolutionView { p_error: Double::spec_one(), ..DagSolutionView::default() }
    }

    /// The canonical form of a standard solution: its eleven fields, the given
    /// global error probability, and nothing of the variant without padding.
    pub open spec fn standard(sol: Solution, global_p_error: Double) -> DagSolutionView {
        DagSolutionView {
            input_lwe_dimension: sol.input_lwe_dimension,
            internal_ks_output_lwe_dimension: sol.internal_ks_output_lwe_dimension,
            ks_decomposition_level_count: sol.ks_decomposition_level_count,
            ks_decomposition_base_log: sol.ks_decomposition_base_log,
            glwe_polynomial_size: sol.glwe_polynomial_size,
            glwe_dimension: sol.glwe_dimension,
            br_decomposition_level_count: sol.br_decomposition_level_count,
            br_decomposition_base_log: sol.br_decomposition_base_log,
            complexity: sol.complexity,
            noise_max: sol.noise_max,
            p_error: sol.p_error,
            global_p_error,
            use_wop_pbs: false,
            cb_decomposition_level_count: 0,
            cb_decomposition_base_log: 0,
            pp_decomposition_level_count: 0,
            pp_decomposition_base_log: 0,
            crt_decomposition: Seq::empty(),
        }
    }

    /// The canonical form of a solution without padding bit.
    pub open spec fn without_padding(
        sol: Solution,
        global_p_error: Double,
        wop: WopParameters,
        crt_decomposition: Seq<u64>,
    ) -> DagSolutionView {
        DagSolutionView {
            use_wop_pbs: true,
            cb_decomposition_level_count: wop.cb_decomposition_level_count,
            cb_decomposition_base_log: wop.cb_decomposition_base_log,
            pp_decomposition_level_count: wop.pp_decomposition_level_count,
            pp_decomposition_base_log: wop.pp_decomposition_base_log,
            crt_decomposition,
            ..DagSolutionView::standard(sol, global_p_error)
        }
    }
}

impl Clone for DagSolution {
    fn clone(&self) -> (s: DagSolution)
        ensures
            s@ == self@,
    {
        DagSolution {
            input_lwe_dimension: self.input_lwe_dimension,
            internal_ks_output_lwe_dimension: self.internal_ks_output_lwe_dimension,
            ks_decomposition_level_count: self.ks_decomposition_level_count,
            ks_decomposition_base_log: self.ks_decomposition_base_log,
            glwe_polynomial_size: self.glwe_polynomial_size,
            glwe_dimension: self.glwe_dimension,
            br_decomposition_level_count: self.br_decomposition_level_count,
            br_decomposition_base_log: self.br_decomposition_base_log,
            complexity: self.complexity,
            noise_max: self.noise_max,
            p_error: self.p_error,
            global_p_error: self.global_p_error,
            use_wop_pbs: self.use_wop_pbs,
            cb_decomposition_level_count: self.cb_decomposition_level_count,
            cb_decomposition_base_log: self.cb_decomposition_base_log,
            pp_decomposition_level_count: self.pp_decomposition_level_count,
            pp_decomposition_base_log: self.pp_decomposition_base_log,
            crt_decomposition: self.crt_decomposition.clone(),
        }
    }
}

impl Default for DagSolution {
    fn default() -> (s: DagSolution)
        ensures
            s@ == DagSolutionView::default(),
    {
        DagSolution {
            input_lwe_dimension: 0,
            internal_ks_output_lwe_dimension: 0,
            ks_decomposition_level_count: 0,
            ks_decomposition_base_log: 0,
            glwe_polynomial_size: 0,
            glwe_dimension: 0,
            br_decomposition_level_count: 0,
            br_decomposition_base_log: 0,
            complexity: Double::zero(),
            noise_max: Double::zero(),
            p_error: Double::zero(),
            global_p_error: Double::zero(),
            use_wop_pbs: false,
            cb_decomposition_level_count: 0,
            cb_decomposition_base_log: 0,
            pp_decomposition_level_count: 0,
            pp_decomposition_base_log: 0,
            crt_decomposition: Vec::new(),
        }
    }
}

/// The decomposition parameters that only the variant without padding bit
/// has: those of the circuit bootstrap and of the private functional packing.
#[derive(Clone, Copy, Debug)]
pub struct WopParameters {
    pub cb_decomposition_level_count: u64,
    pub cb_decomposition_base_log: u64,
    pub pp_decomposition_level_count: u64,
    pub pp_decomposition_base_log: u64,
}

/// What the optimizer reports for a graph under a single parameter set.
#[derive(Debug)]
pub enum SoloKeySolution {
    /// Table lookups by the standard bootstrap.
    Standard { solution: Solution, global_p_error: Double },
    /// Table lookups by the bootstrap without padding bit, over a CRT
    /// decomposition of the message space.
    WithoutPadding {
        solution: Solution,
        global_p_error: Double,
        wop: WopParameters,
        crt_decomposition: Vec<u64>,
    },
}

impl SoloKeySolution {
    /// The canonical form of either variant.
    pub open spec fn canonical(self) -> DagSolutionView {
        match self {
            SoloKeySolution::Standard { solution, global_p_error } => DagSolutionView::standard(
                solution,
                global_p_error,
            ),
            SoloKeySolution::WithoutPadding {
                solution,
                global_p_error,
                wop,
                crt_decomposition,
            } => DagSolutionView::without_padding(
                solution,
                global_p_error,
                wop,
                crt_decomposition@,
            ),
        }
    }
}

/// The [`Solution`] that stands for "no parameters exist".
pub fn no_solution() -> (s: Solution)
    ensures
        s == Solution::spec_none(),
        !s.p_error.spec_lt(Double::spec_one()),
{
    let mut s = Solution::default();
    s.p_error = Double::one();
    s
}

/// The [`DagSolution`] that stands for "no parameters exist".
pub fn no_dag_solution() -> (s: DagSolution)
    ensures
        s@ == DagSolutionView::none(),
        !s@.p_error.spec_lt(Double::spec_one()),
{
    let mut s = DagSolution::default();
    s.p_error = Double::one();
    s
}

/// The canonical form of a plain bootstrap solution: its own fields, a NaN
/// for the global error probability that it does not have, and nothing of the
/// variant without padding bit.
pub fn convert_to_dag_solution(sol: &Solution) -> (d: DagSolution)
    ensures
        d@ == DagSolutionView::standard(*sol, Double::spec_nan()),
        d@.global_p_error.is_nan(),
{
    DagSolution::from_standard(sol, Double::nan())
}

impl DagSolution {
    /// The canonical form of a standard solution with the given global error
    /// probability.
    pub fn from_standard(sol: &Solution, global_p_error: Double) -> (d: DagSolution)
        ensures
            d@ == DagSolutionView::standard(*sol, global_p_error),
    {
        DagSolution {
            input_lwe_dimension: sol.input_lwe_dimension,
            internal_ks_output_lwe_dimension: sol.internal_ks_output_lwe_dimension,
            ks_decomposition_level_count: sol.ks_decomposition_level_count,
            ks_decomposition_base_log: sol.ks_decomposition_base_log,
            glwe_polynomial_size: sol.glwe_polynomial_size,
            glwe_dimension: sol.glwe_dimension,
            br_decomposition_level_count: sol.br_decomposition_level_count,
            br_decomposition_base_log: sol.br_decomposition_base_log,
            complexity: sol.complexity,
            noise_max: sol.noise_max,
            p_error: sol.p_error,
            global_p_error,
            use_wop_pbs: false,
            cb_decomposition_level_count: 0,
            cb_decomposition_base_log: 0,
            pp_decomposition_level_count: 0,
            pp_decomposition_base_log: 0,
            crt_decomposition: Vec::new(),
        }
    }

    /// The canonical form of what the optimizer reported for a graph.
    pub fn from_solo_key(sol: SoloKeySolution) -> (d: DagSolution)
        ensures
            d@ == sol.canonical(),
    {
        match sol {
            SoloKeySolution::Standard { solution, global_p_error } => DagSolution::from_standard(
                &solution,
                global_p_error,
            ),
            SoloKeySolution::WithoutPadding {
                solution,
                global_p_error,
                wop,
                crt_decomposition,
            } => {
                let mut d = DagSolution::from_standard(&solution, global_p_error);
                d.use_wop_pbs = true;
                d.cb_decomposition_level_count = wop.cb_decomposition_level_count;
                d.cb_decomposition_base_log = wop.cb_decomposition_base_log;
                d.pp_decomposition_level_count = wop.pp_decomposition_level_count;
                d.pp_decomposition_base_log = wop.pp_decomposition_base_log;
                d.crt_decomposition = crt_decomposition;
                d
            },
        }
    }
}

impl From<&Solution> for DagSolution {
    /// The canonical form of a plain bootstrap solution, as
    /// [`convert_to_dag_solution`] gives it.
    fn from(sol: &Solution) -> (d: DagSolution)
        ensures
            d@ == DagSolutionView::standard(*sol, Double::spec_nan()),
    {
        convert_to_dag_solution(sol)
    }
}

/// A canonical solution holds a vector, and two vectors of the same items
/// need not be the same value: the conversion is stated by the view of its
/// result, on `from` itself, and no spec function names the result.
impl vstd::std_specs::convert::FromSpecImpl<&Solution> for DagSolution {
    open spec fn obeys_from_spec() -> bool {
        false
    }

    open spec fn from_spec(sol: &Solution) -> DagSolution {
        arbitrary()
    }
}

impl From<SoloKeySolution> for DagSolution {
    /// The canonical form of what the optimizer reported for a graph.
    fn from(sol: SoloKeySolution) -> (d: DagSolution)
        ensures
            d@ == sol.canonical(),
    {
        DagSolution::from_solo_key(sol)
    }
}

/// As for the conversion from a plain solution: stated by the view of the
/// result, on `from` itself.
impl vstd::std_specs::convert::FromSpecImpl<SoloKeySolution> for DagSolution {
    open spec fn obeys_from_spec() -> bool {
        false
    }

    open spec fn from_spec(sol: SoloKeySolution) -> DagSolution {
        arbitrary()
    }
}

} // verus!
