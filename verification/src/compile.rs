//! From a canonical solution to the keys of a circuit.
//!
//! Under a single parameter set every operator of a graph uses the same keys:
//! a big secret key, in which ciphertexts travel between operators, a small
//! one inside table lookups, one key-switch key from big to small and one
//! bootstrap key from small to big. Table lookups without padding bit add a
//! circuit-bootstrap key and a private-functional-packing key.
use vstd::prelude::*;
use crate::dag::Dag;
use crate::double::Double;
use crate::keys::{
    BootstrapKey, BootstrapKeyView, BrDecompositionParameters, CircuitBoostrapKey,
    CircuitBoostrapKeyView, CircuitKeys, CircuitKeysView, CircuitSolution, CircuitSolutionView,
    InstructionKeys, InstructionKeysView, KeySwitchKey, KeySwitchKeyView,
    KsDecompositionParameters, PrivateFunctionalPackingBoostrapKey,
    PrivateFunctionalPackingBoostrapKeyView, SecretLweKey, SecretLweKeyView, NO_KEY,
};
use crate::solution::{DagSolution, DagSolutionView};

verus! {

/// The identifier of the big secret key.
pub const BIG_KEY_ID: u64 = 0;

/// The identifier of the small secret key.
pub const SMALL_KEY_ID: u64 = 1;

/// The identifier of the one key of each other kind.
pub const FIRST_KEY_ID: u64 = 0;

/// The big secret key: the GLWE key of the solution's polynomial size and
/// dimension. Bootstraps put their result under it and key switches start
/// from it.
pub open spec fn big_key(sol: DagSolutionView) -> SecretLweKeyView {
    SecretLweKeyView {
        identifier: BIG_KEY_ID,
        polynomial_size: sol.glwe_polynomial_size,
        glwe_dimension: sol.glwe_dimension,
        description: "big representation"@,
    }
}

/// The small secret key: the LWE key that key switches put their result
/// under and bootstraps start from, as a GLWE key of dimension 1.
pub open spec fn small_key(sol: DagSolutionView) -> SecretLweKeyView {
    SecretLweKeyView {
        identifier: SMALL_KEY_ID,
        polynomial_size: sol.internal_ks_output_lwe_dimension,
        glwe_dimension: 1,
        description: "small representation"@,
    }
}

/// The key-switch key of table lookups, from big to small.
pub open spec fn keyswitch_key(sol: DagSolutionView) -> KeySwitchKeyView {
    KeySwitchKeyView {
        identifier: FIRST_KEY_ID,
        input_key: big_key(sol),
        output_key: small_key(sol),
        ks_decomposition_parameter: KsDecompositionParameters {
            level: sol.ks_decomposition_level_count,
            log2_base: sol.ks_decomposition_base_log,
        },
        description: "tlu keyswitch"@,
    }
}

/// The bootstrap key of table lookups, from small to big.
pub open spec fn bootstrap_key(sol: DagSolutionView) -> BootstrapKeyView {
    BootstrapKeyView {
        identifier: FIRST_KEY_ID,
        input_key: small_key(sol),
        output_key: big_key(sol),
        br_decomposition_parameter: BrDecompositionParameters {
            level: sol.br_decomposition_level_count,
            log2_base: sol.br_decomposition_base_log,
        },
        description: "tlu bootstrap"@,
    }
}

/// The circuit-bootstrap key of table lookups without padding bit.
pub open spec fn circuit_bootstrap_key(sol: DagSolutionView) -> CircuitBoostrapKeyView {
    CircuitBoostrapKeyView {
        identifier: FIRST_KEY_ID,
        representation_key: big_key(sol),
        br_decomposition_parameter: BrDecompositionParameters {
            level: sol.cb_decomposition_level_count,
            log2_base: sol.cb_decomposition_base_log,
        },
        description: "circuit bootstrap for woppbs"@,
    }
}

/// The private-functional-packing key of table lookups without padding bit.
pub open spec fn private_functional_packing_key(
    sol: DagSolutionView,
) -> PrivateFunctionalPackingBoostrapKeyView {
    PrivateFunctionalPackingBoostrapKeyView {
        identifier: FIRST_KEY_ID,
        representation_key: big_key(sol),
        br_decomposition_parameter: BrDecompositionParameters {
            level: sol.pp_decomposition_level_count,
            log2_base: sol.pp_decomposition_base_log,
        },
        description: "private functional packing for woppbs"@,
    }
}

/// The keys of a circuit under a single parameter set.
pub open spec fn single_parameter_keys(sol: DagSolutionView) -> CircuitKeysView {
    CircuitKeysView {
        secret_keys: seq![big_key(sol), small_key(sol)],
        keyswitch_keys: seq![keyswitch_key(sol)],
        bootstrap_keys: seq![bootstrap_key(sol)],
        conversion_keyswitch_keys: Seq::empty(),
        circuit_bootstrap_keys: if sol.use_wop_pbs {
            seq![circuit_bootstrap_key(sol)]
        } else {
            Seq::empty()
        },
        private_functional_packing_keys: if sol.use_wop_pbs {
            seq![private_functional_packing_key(sol)]
        } else {
            Seq::empty()
        },
    }
}

/// The keys of any one operator under a single parameter set: big key in,
/// big key out, the one key-switch key and the one bootstrap key, and the two
/// keys of the variant without padding bit where the solution has them.
pub open spec fn single_parameter_bindings(sol: DagSolutionView) -> InstructionKeysView {
    InstructionKeysView {
        input_key: BIG_KEY_ID,
        tlu_keyswitch_key: FIRST_KEY_ID,
        tlu_bootstrap_key: FIRST_KEY_ID,
        tlu_circuit_bootstrap_key: if sol.use_wop_pbs {
            FIRST_KEY_ID
        } else {
            NO_KEY
        },
        tlu_private_functional_packing_key: if sol.use_wop_pbs {
            FIRST_KEY_ID
        } else {
            NO_KEY
        },
        output_key: BIG_KEY_ID,
        extra_conversion_keys: Seq::empty(),
    }
}

/// A solution is feasible when its error probability is below one.
pub open spec fn feasible(sol: DagSolutionView) -> bool {
    sol.p_error.spec_lt(Double::spec_one())
}

/// What a solution that is not feasible says in place of an empty message.
pub open spec fn infeasible_message() -> Seq<char> {
    "No crypto-parameters for the given constraints"@
}

/// The circuit solution of a graph of `operators` operators under a single
/// parameter set.
pub open spec fn single_parameter_solution(
    sol: DagSolutionView,
    operators: nat,
) -> CircuitSolutionView {
    CircuitSolutionView {
        circuit_keys: single_parameter_keys(sol),
        instructions_keys: Seq::new(operators, |i: int| single_parameter_bindings(sol)),
        crt_decomposition: sol.crt_decomposition,
        complexity: sol.complexity,
        p_error: sol.p_error,
        global_p_error: sol.global_p_error,
        is_feasible: feasible(sol),
        error_msg: if feasible(sol) {
            Seq::empty()
        } else {
            infeasible_message()
        },
    }
}

fn make_big_key(sol: &DagSolution) -> (key: SecretLweKey)
    ensures
        key@ == big_key(sol@),
{
    SecretLweKey {
        identifier: BIG_KEY_ID,
        polynomial_size: sol.glwe_polynomial_size,
        glwe_dimension: sol.glwe_dimension,
        description: String::from_str("big representation"),
    }
}

fn make_small_key(sol: &DagSolution) -> (key: SecretLweKey)
    ensures
        key@ == small_key(sol@),
{
    SecretLweKey {
        identifier: SMALL_KEY_ID,
        polynomial_size: sol.internal_ks_output_lwe_dimension,
        glwe_dimension: 1,
        description: String::from_str("small representation"),
    }
}

fn make_bindings(sol: &DagSolution) -> (keys: InstructionKeys)
    ensures
        keys@ == single_parameter_bindings(sol@),
{
    InstructionKeys {
        input_key: BIG_KEY_ID,
        tlu_keyswitch_key: FIRST_KEY_ID,
        tlu_bootstrap_key: FIRST_KEY_ID,
        tlu_circuit_bootstrap_key: if sol.use_wop_pbs {
            FIRST_KEY_ID
        } else {
            NO_KEY
        },
        tlu_private_functional_packing_key: if sol.use_wop_pbs {
            FIRST_KEY_ID
        } else {
            NO_KEY
        },
        output_key: BIG_KEY_ID,
        extra_conversion_keys: Vec::new(),
    }
}

/// Derives the keys of a graph from the parameters of a single-parameter
/// solution, and binds every operator of the graph to them.
///
/// The result holds the big and the small secret key, one key-switch key and
/// one bootstrap key; with `use_wop_pbs` also one circuit-bootstrap key and
/// one private-functional-packing key. Every operator gets the same bindings.
/// The solution is feasible exactly when its error probability is below one,
/// and only then is its message empty.
pub fn convert_to_circuit_solution(sol: &DagSolution, dag: &Dag) -> (res: CircuitSolution)
    ensures
        res@ == single_parameter_solution(sol@, dag@.nodes.len()),
        // One entry of bindings for each operator, each naming keys of the
        // result.
        res@.instructions_keys.len() == dag@.nodes.len(),
        res@.bindings_resolve(),
        // Feasibility is read off the error probability.
        res@.is_feasible == sol@.p_error.spec_lt(Double::spec_one()),
        res@.is_feasible <==> res@.error_msg.len() == 0,
        // The keys of the variant without padding bit are there exactly when
        // it was chosen.
        sol@.use_wop_pbs ==> res@.circuit_keys.circuit_bootstrap_keys.len() == 1
            && res@.circuit_keys.private_functional_packing_keys.len() == 1,
        !sol@.use_wop_pbs ==> res@.circuit_keys.circuit_bootstrap_keys.len() == 0
            && res@.circuit_keys.private_functional_packing_keys.len() == 0,
        // Two secret keys: the big one, then the small one.
        res@.circuit_keys.secret_keys.len() == 2,
        res@.circuit_keys.secret_keys[0] == big_key(sol@),
        res@.circuit_keys.secret_keys[1] == small_key(sol@),
        res@.circuit_keys.keyswitch_keys[0].input_key == res@.circuit_keys.secret_keys[0],
        res@.circuit_keys.keyswitch_keys[0].output_key == res@.circuit_keys.secret_keys[1],
        res@.circuit_keys.bootstrap_keys[0].input_key == res@.circuit_keys.secret_keys[1],
        res@.circuit_keys.bootstrap_keys[0].output_key == res@.circuit_keys.secret_keys[0],
{
    let keyswitch_key = KeySwitchKey {
        identifier: FIRST_KEY_ID,
        input_key: make_big_key(sol),
        output_key: make_small_key(sol),
        ks_decomposition_parameter: KsDecompositionParameters {
            level: sol.ks_decomposition_level_count,
            log2_base: sol.ks_decomposition_base_log,
        },
        description: String::from_str("tlu keyswitch"),
    };
    let bootstrap_key = BootstrapKey {
        identifier: FIRST_KEY_ID,
        input_key: make_small_key(sol),
        output_key: make_big_key(sol),
        br_decomposition_parameter: BrDecompositionParameters {
            level: sol.br_decomposition_level_count,
            log2_base: sol.br_decomposition_base_log,
        },
        description: String::from_str("tlu bootstrap"),
    };
    let mut circuit_bootstrap_keys: Vec<CircuitBoostrapKey> = Vec::new();
    let mut private_functional_packing_keys: Vec<PrivateFunctionalPackingBoostrapKey> = Vec::new();
    if sol.use_wop_pbs {
        circuit_bootstrap_keys.push(
            CircuitBoostrapKey {
                identifier: FIRST_KEY_ID,
                representation_key: make_big_key(sol),
                br_decomposition_parameter: BrDecompositionParameters {
                    level: sol.cb_decomposition_level_count,
                    log2_base: sol.cb_decomposition_base_log,
                },
                description: String::from_str("circuit bootstrap for woppbs"),
            },
        );
        private_functional_packing_keys.push(
            PrivateFunctionalPackingBoostrapKey {
                identifier: FIRST_KEY_ID,
                representation_key: make_big_key(sol),
                br_decomposition_parameter: BrDecompositionParameters {
                    level: sol.pp_decomposition_level_count,
                    log2_base: sol.pp_decomposition_base_log,
                },
                description: String::from_str("private functional packing for woppbs"),
            },
        );
    }
    let mut secret_keys: Vec<SecretLweKey> = Vec::new();
    secret_keys.push(make_big_key(sol));
    secret_keys.push(make_small_key(sol));
    let mut keyswitch_keys: Vec<KeySwitchKey> = Vec::new();
    keyswitch_keys.push(keyswitch_key);
    let mut bootstrap_keys: Vec<BootstrapKey> = Vec::new();
    bootstrap_keys.push(bootstrap_key);
    let circuit_keys = CircuitKeys {
        secret_keys,
        keyswitch_keys,
        bootstrap_keys,
        conversion_keyswitch_keys: Vec::new(),
        circuit_bootstrap_keys,
        private_functional_packing_keys,
    };
    proof {
        let want = single_parameter_keys(sol@);
        assert(circuit_keys@.secret_keys =~= want.secret_keys);
        assert(circuit_keys@.keyswitch_keys =~= want.keyswitch_keys);
        assert(circuit_keys@.bootstrap_keys =~= want.bootstrap_keys);
        assert(circuit_keys@.conversion_keyswitch_keys =~= want.conversion_keyswitch_keys);
        assert(circuit_keys@.circuit_bootstrap_keys =~= want.circuit_bootstrap_keys);
        assert(circuit_keys@.private_functional_packing_keys
            =~= want.private_functional_packing_keys);
    }

    let operators: usize = dag.len();
    let mut instructions_keys: Vec<InstructionKeys> = Vec::new();
    while instructions_keys.len() < operators
        invariant
            instructions_keys@.len() <= operators,
            forall|i: int|
                0 <= i < instructions_keys@.len() ==> (#[trigger] instructions_keys@[i])@
                    == single_parameter_bindings(sol@),
        decreases operators - instructions_keys@.len(),
    {
        instructions_keys.push(make_bindings(sol));
    }

    let is_feasible: bool = sol.p_error.lt(&Double::one());
    let error_msg: String = if is_feasible {
        String::new()
    } else {
        String::from_str("No crypto-parameters for the given constraints")
    };
    let res = CircuitSolution {
        circuit_keys,
        instructions_keys,
        crt_decomposition: sol.crt_decomposition.clone(),
        complexity: sol.complexity,
        p_error: sol.p_error,
        global_p_error: sol.global_p_error,
        is_feasible,
        error_msg,
    };
    proof {
        let want = single_parameter_solution(sol@, dag@.nodes.len());
        assert(res@.instructions_keys =~= want.instructions_keys);
        assert(res@.crt_decomposition =~= want.crt_decomposition);
        reveal_strlit("No crypto-parameters for the given constraints");
        lemma_single_parameter_bindings_resolve(sol@, dag@.nodes.len());
    }
    res
}

/// Under a single parameter set every operator's bindings name keys that the
/// solution holds.
pub proof fn lemma_single_parameter_bindings_resolve(sol: DagSolutionView, operators: nat)
    ensures
        single_parameter_solution(sol, operators).bindings_resolve(),
{
    let res = single_parameter_solution(sol, operators);
    let keys = res.circuit_keys;
    assert(keys.secret_keys[0].identifier == BIG_KEY_ID);
    assert(keys.keyswitch_keys[0].identifier == FIRST_KEY_ID);
    assert(keys.bootstrap_keys[0].identifier == FIRST_KEY_ID);
    if sol.use_wop_pbs {
        assert(keys.circuit_bootstrap_keys[0].identifier == FIRST_KEY_ID);
        assert(keys.private_functional_packing_keys[0].identifier == FIRST_KEY_ID);
    }
    assert(single_parameter_bindings(sol).bound_within(keys));
}

/// Where the optimizer found nothing, the circuit solution says so: it is
/// not feasible, and its message, which is not empty, tells that no
/// parameters meet the constraints.
pub proof fn lemma_no_solution_is_infeasible(operators: nat)
    ensures
        !single_parameter_solution(DagSolutionView::none(), operators).is_feasible,
        single_parameter_solution(DagSolutionView::none(), operators).error_msg
            == infeasible_message(),
        infeasible_message().len() > 0,
{
    reveal_strlit("No crypto-parameters for the given constraints");
}

/// Reading a circuit solution of a single parameter set back gives the
/// parameters that the keys were derived from. Three things are not kept:
/// the noise, which no circuit solution records; the input LWE dimension,
/// which is read off the big key; and the parameters of the variant without
/// padding bit where it was not chosen.
pub proof fn lemma_read_back(sol: DagSolutionView, operators: nat)
    requires
        sol.glwe_polynomial_size * sol.glwe_dimension <= u64::MAX,
    ensures
        reads_as_single_parameter(single_parameter_solution(sol, operators)),
        dag_solution_of(single_parameter_solution(sol, operators)) == (DagSolutionView {
            input_lwe_dimension: (sol.glwe_polynomial_size * sol.glwe_dimension) as u64,
            noise_max: Double::spec_nan(),
            cb_decomposition_level_count: if sol.use_wop_pbs {
                sol.cb_decomposition_level_count
            } else {
                0
            },
            cb_decomposition_base_log: if sol.use_wop_pbs {
                sol.cb_decomposition_base_log
            } else {
                0
            },
            pp_decomposition_level_count: if sol.use_wop_pbs {
                sol.pp_decomposition_level_count
            } else {
                0
            },
            pp_decomposition_base_log: if sol.use_wop_pbs {
                sol.pp_decomposition_base_log
            } else {
                0
            },
            ..sol
        }),
{
    let c = single_parameter_solution(sol, operators);
    assert(c.circuit_keys.secret_keys[1].polynomial_size * 1
        == sol.internal_ks_output_lwe_dimension);
}

/// Whether a circuit solution has the shape of a single parameter set, so
/// that [`DagSolution::from_circuit_solution`] can read it: two secret keys,
/// a key-switch key and a bootstrap key, the keys of the variant without
/// padding bit either both absent or one of each, and secret keys whose LWE
/// dimension fits in 64 bits.
pub open spec fn reads_as_single_parameter(sol: CircuitSolutionView) -> bool {
    let keys = sol.circuit_keys;
    &&& keys.secret_keys.len() == 2
    &&& keys.keyswitch_keys.len() >= 1
    &&& keys.bootstrap_keys.len() >= 1
    &&& keys.circuit_bootstrap_keys.len() > 0 ==> keys.circuit_bootstrap_keys.len() == 1
        && keys.private_functional_packing_keys.len() == 1
    &&& keys.secret_keys[0].polynomial_size * keys.secret_keys[0].glwe_dimension <= u64::MAX
    &&& keys.secret_keys[1].polynomial_size * keys.secret_keys[1].glwe_dimension <= u64::MAX
}

/// The canonical solution that a circuit solution of a single parameter set
/// stands for. The first secret key is read as the big one and the second as
/// the small one; a circuit-bootstrap key says that table lookups go without
/// padding bit. The noise, which a circuit solution does not record, is a NaN.
pub open spec fn dag_solution_of(sol: CircuitSolutionView) -> DagSolutionView {
    let keys = sol.circuit_keys;
    let big = keys.secret_keys[0];
    let small = keys.secret_keys[1];
    let use_wop_pbs = keys.circuit_bootstrap_keys.len() > 0;
    DagSolutionView {
        input_lwe_dimension: (big.polynomial_size * big.glwe_dimension) as u64,
        internal_ks_output_lwe_dimension: (small.polynomial_size * small.glwe_dimension) as u64,
        ks_decomposition_level_count: keys.keyswitch_keys[0].ks_decomposition_parameter.level,
        ks_decomposition_base_log: keys.keyswitch_keys[0].ks_decomposition_parameter.log2_base,
        glwe_polynomial_size: big.polynomial_size,
        glwe_dimension: big.glwe_dimension,
        br_decomposition_level_count: keys.bootstrap_keys[0].br_decomposition_parameter.level,
        br_decomposition_base_log: keys.bootstrap_keys[0].br_decomposition_parameter.log2_base,
        complexity: sol.complexity,
        noise_max: Double::spec_nan(),
        p_error: sol.p_error,
        global_p_error: sol.global_p_error,
        use_wop_pbs,
        cb_decomposition_level_count: if use_wop_pbs {
            keys.circuit_bootstrap_keys[0].br_decomposition_parameter.level
        } else {
            0
        },
        cb_decomposition_base_log: if use_wop_pbs {
            keys.circuit_bootstrap_keys[0].br_decomposition_parameter.log2_base
        } else {
            0
        },
        pp_decomposition_level_count: if use_wop_pbs {
            keys.private_functional_packing_keys[0].br_decomposition_parameter.level
        } else {
            0
        },
        pp_decomposition_base_log: if use_wop_pbs {
            keys.private_functional_packing_keys[0].br_decomposition_parameter.log2_base
        } else {
            0
        },
        crt_decomposition: sol.crt_decomposition,
    }
}

impl CircuitSolution {
    /// Whether the solution has the shape of a single parameter set.
    pub fn is_single_parameter(&self) -> (b: bool)
        ensures
            b == reads_as_single_parameter(self@),
    {
        let keys = &self.circuit_keys;
        if keys.secret_keys.len() != 2 || keys.keyswitch_keys.len() < 1
            || keys.bootstrap_keys.len() < 1 {
            return false;
        }
        if keys.circuit_bootstrap_keys.len() > 0 && (keys.circuit_bootstrap_keys.len() != 1
            || keys.private_functional_packing_keys.len() != 1) {
            return false;
        }
        let big = &keys.secret_keys[0];
        let small = &keys.secret_keys[1];
        big.polynomial_size.checked_mul(big.glwe_dimension).is_some()
            && small.polynomial_size.checked_mul(small.glwe_dimension).is_some()
    }
}

impl DagSolution {
    /// Reads the parameters of a single parameter set back from the keys
    /// that were derived from it.
    pub fn from_circuit_solution(sol: &CircuitSolution) -> (d: DagSolution)
        requires
            reads_as_single_parameter(sol@),
        ensures
            d@ == dag_solution_of(sol@),
    {
        let keys = &sol.circuit_keys;
        let big_key = &keys.secret_keys[0];
        let small_key = &keys.secret_keys[1];
        let input_lwe_dimension: u64 = big_key.polynomial_size * big_key.glwe_dimension;
        let internal_ks_output_lwe_dimension: u64 = small_key.polynomial_size
            * small_key.glwe_dimension;
        let keyswitch_key = &keys.keyswitch_keys[0];
        let bootstrap_key = &keys.bootstrap_keys[0];
        let mut cb_decomposition_level_count: u64 = 0;
        let mut cb_decomposition_base_log: u64 = 0;
        let mut pp_decomposition_level_count: u64 = 0;
        let mut pp_decomposition_base_log: u64 = 0;
        let use_wop_pbs: bool = keys.circuit_bootstrap_keys.len() > 0;
        if use_wop_pbs {
            let cb_decomp = &keys.circuit_bootstrap_keys[0].br_decomposition_parameter;
            cb_decomposition_level_count = cb_decomp.level;
            cb_decomposition_base_log = cb_decomp.log2_base;
            let pp_switch_decomp =
                &keys.private_functional_packing_keys[0].br_decomposition_parameter;
            pp_decomposition_level_count = pp_switch_decomp.level;
            pp_decomposition_base_log = pp_switch_decomp.log2_base;
        }
        DagSolution {
            input_lwe_dimension,
            internal_ks_output_lwe_dimension,
            ks_decomposition_level_count: keyswitch_key.ks_decomposition_parameter.level,
            ks_decomposition_base_log: keyswitch_key.ks_decomposition_parameter.log2_base,
            glwe_polynomial_size: big_key.polynomial_size,
            glwe_dimension: big_key.glwe_dimension,
            br_decomposition_level_count: bootstrap_key.br_decomposition_parameter.level,
            br_decomposition_base_log: bootstrap_key.br_decomposition_parameter.log2_base,
            complexity: sol.complexity,
            noise_max: Double::nan(),
            p_error: sol.p_error,
            global_p_error: sol.global_p_error,
            use_wop_pbs,
            cb_decomposition_level_count,
            cb_decomposition_base_log,
            pp_decomposition_level_count,
            pp_decomposition_base_log,
            crt_decomposition: sol.crt_decomposition.clone(),
        }
    }
}

} // verus!
