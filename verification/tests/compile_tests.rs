use circuit_keyset::compile::convert_to_circuit_solution;
use circuit_keyset::dag::{empty, Dag};
use circuit_keyset::double::Double;
use circuit_keyset::keys::{
    BootstrapKey, BrDecompositionParameters, CircuitBoostrapKey, CircuitKeys, CircuitSolution,
    ConversionKeySwitchKey, InstructionKeys, KeySwitchKey, KsDecompositionParameters,
    PrivateFunctionalPackingBoostrapKey, SecretLweKey, NO_KEY, NO_KEY_ID,
};
use circuit_keyset::location::location_unknown;
use circuit_keyset::optimize::dag_solution;
use circuit_keyset::solution::{no_dag_solution, DagSolution};

fn number_of(x: f64) -> Double {
    Double::from_bits(x.to_bits())
}

fn float_of(d: Double) -> f64 {
    f64::from_bits(d.to_bits())
}

fn dag_of(operators: usize) -> Box<Dag> {
    let mut dag = empty();
    {
        let location = location_unknown();
        let mut builder = dag.builder("main".to_string());
        for _ in 0..operators {
            builder.add_input(4, &[], &location);
        }
    }
    dag
}

fn parameters(use_wop_pbs: bool, p_error: f64) -> DagSolution {
    DagSolution {
        input_lwe_dimension: 2048,
        internal_ks_output_lwe_dimension: 750,
        ks_decomposition_level_count: 3,
        ks_decomposition_base_log: 4,
        glwe_polynomial_size: 1024,
        glwe_dimension: 2,
        br_decomposition_level_count: 1,
        br_decomposition_base_log: 23,
        complexity: number_of(1.5e8),
        noise_max: number_of(2.0e-7),
        p_error: number_of(p_error),
        global_p_error: number_of(0.03),
        use_wop_pbs,
        cb_decomposition_level_count: 5,
        cb_decomposition_base_log: 6,
        pp_decomposition_level_count: 7,
        pp_decomposition_base_log: 8,
        crt_decomposition: if use_wop_pbs { vec![7, 8, 9] } else { vec![] },
    }
}

fn assert_big(key: &SecretLweKey) {
    assert_eq!(key.identifier, 0);
    assert_eq!(key.polynomial_size, 1024);
    assert_eq!(key.glwe_dimension, 2);
    assert_eq!(key.description, "big representation");
}

fn assert_small(key: &SecretLweKey) {
    assert_eq!(key.identifier, 1);
    assert_eq!(key.polynomial_size, 750);
    assert_eq!(key.glwe_dimension, 1);
    assert_eq!(key.description, "small representation");
}

#[test]
fn no_key_is_the_largest_identifier() {
    assert_eq!(NO_KEY_ID(), u64::MAX);
    assert_eq!(NO_KEY, u64::MAX);
}

#[test]
fn standard_solution_gives_two_secret_keys_and_two_lookup_keys() {
    let dag = dag_of(3);
    let res = convert_to_circuit_solution(&parameters(false, 0.01), &dag);
    let keys = &res.circuit_keys;
    assert_eq!(keys.secret_keys.len(), 2);
    assert_big(&keys.secret_keys[0]);
    assert_small(&keys.secret_keys[1]);

    assert_eq!(keys.keyswitch_keys.len(), 1);
    let ks = &keys.keyswitch_keys[0];
    assert_eq!(ks.identifier, 0);
    assert_big(&ks.input_key);
    assert_small(&ks.output_key);
    assert_eq!(ks.ks_decomposition_parameter, KsDecompositionParameters { level: 3, log2_base: 4 });
    assert_eq!(ks.description, "tlu keyswitch");

    assert_eq!(keys.bootstrap_keys.len(), 1);
    let br = &keys.bootstrap_keys[0];
    assert_eq!(br.identifier, 0);
    assert_small(&br.input_key);
    assert_big(&br.output_key);
    assert_eq!(
        br.br_decomposition_parameter,
        BrDecompositionParameters { level: 1, log2_base: 23 }
    );
    assert_eq!(br.description, "tlu bootstrap");

    assert!(keys.conversion_keyswitch_keys.is_empty());
    assert!(keys.circuit_bootstrap_keys.is_empty());
    assert!(keys.private_functional_packing_keys.is_empty());
}

#[test]
fn every_operator_gets_the_same_bindings() {
    for operators in [0usize, 1, 2, 17] {
        let dag = dag_of(operators);
        assert_eq!(dag.len(), operators);
        let res = convert_to_circuit_solution(&parameters(false, 0.01), &dag);
        assert_eq!(res.instructions_keys.len(), operators);
        for bindings in res.instructions_keys.iter() {
            assert_eq!(bindings.input_key, 0);
            assert_eq!(bindings.tlu_keyswitch_key, 0);
            assert_eq!(bindings.tlu_bootstrap_key, 0);
            assert_eq!(bindings.tlu_circuit_bootstrap_key, NO_KEY);
            assert_eq!(bindings.tlu_private_functional_packing_key, NO_KEY);
            assert_eq!(bindings.output_key, 0);
            assert!(bindings.extra_conversion_keys.is_empty());
        }
    }
}

#[test]
fn bindings_name_keys_that_the_solution_holds() {
    for use_wop_pbs in [false, true] {
        let dag = dag_of(4);
        let res = convert_to_circuit_solution(&parameters(use_wop_pbs, 0.01), &dag);
        let keys = &res.circuit_keys;
        for b in res.instructions_keys.iter() {
            assert!(keys.secret_keys.iter().any(|k| k.identifier == b.input_key));
            assert!(keys.secret_keys.iter().any(|k| k.identifier == b.output_key));
            assert!(keys.keyswitch_keys.iter().any(|k| k.identifier == b.tlu_keyswitch_key));
            assert!(keys.bootstrap_keys.iter().any(|k| k.identifier == b.tlu_bootstrap_key));
            if use_wop_pbs {
                assert!(keys
                    .circuit_bootstrap_keys
                    .iter()
                    .any(|k| k.identifier == b.tlu_circuit_bootstrap_key));
                assert!(keys
                    .private_functional_packing_keys
                    .iter()
                    .any(|k| k.identifier == b.tlu_private_functional_packing_key));
            } else {
                assert_eq!(b.tlu_circuit_bootstrap_key, NO_KEY_ID());
                assert_eq!(b.tlu_private_functional_packing_key, NO_KEY_ID());
            }
        }
    }
}

#[test]
fn solution_without_padding_adds_one_key_of_each_kind() {
    let dag = dag_of(2);
    let res = convert_to_circuit_solution(&parameters(true, 0.01), &dag);
    let keys = &res.circuit_keys;
    assert_eq!(keys.secret_keys.len(), 2);
    assert_eq!(keys.circuit_bootstrap_keys.len(), 1);
    let cb = &keys.circuit_bootstrap_keys[0];
    assert_eq!(cb.identifier, 0);
    assert_big(&cb.representation_key);
    assert_eq!(cb.br_decomposition_parameter, BrDecompositionParameters { level: 5, log2_base: 6 });
    assert_eq!(cb.description, "circuit bootstrap for woppbs");
    assert_eq!(keys.private_functional_packing_keys.len(), 1);
    let pp = &keys.private_functional_packing_keys[0];
    assert_eq!(pp.identifier, 0);
    assert_big(&pp.representation_key);
    assert_eq!(pp.br_decomposition_parameter, BrDecompositionParameters { level: 7, log2_base: 8 });
    assert_eq!(pp.description, "private functional packing for woppbs");
    assert_eq!(res.instructions_keys.len(), 2);
    for bindings in res.instructions_keys.iter() {
        assert_eq!(bindings.tlu_circuit_bootstrap_key, 0);
        assert_eq!(bindings.tlu_private_functional_packing_key, 0);
        assert_eq!(bindings.input_key, 0);
        assert_eq!(bindings.output_key, 0);
    }
    assert_eq!(res.crt_decomposition, vec![7, 8, 9]);
}

#[test]
fn numbers_are_copied_from_the_solution() {
    let dag = dag_of(1);
    let res = convert_to_circuit_solution(&parameters(false, 0.25), &dag);
    assert_eq!(float_of(res.complexity), 1.5e8);
    assert_eq!(float_of(res.p_error), 0.25);
    assert_eq!(float_of(res.global_p_error), 0.03);
    assert!(res.crt_decomposition.is_empty());
}

#[test]
fn feasible_exactly_below_one() {
    let dag = dag_of(1);
    let cases: Vec<f64> = vec![
        0.0,
        -0.0,
        1e-300,
        0.5,
        0.999_999_999_999_999_9,
        1.0,
        1.000_000_000_000_000_2,
        2.0,
        f64::INFINITY,
        f64::NAN,
        -1.0,
    ];
    for p_error in cases {
        let res = convert_to_circuit_solution(&parameters(false, p_error), &dag);
        assert_eq!(res.is_feasible, p_error < 1.0, "{p_error:?}");
        if res.is_feasible {
            assert_eq!(res.error_msg, "");
        } else {
            assert_eq!(res.error_msg, "No crypto-parameters for the given constraints");
        }
    }
}

#[test]
fn infeasible_request_is_reported_not_raised() {
    // What the optimizer answers when the acceptable error probability is 0
    // and the search domain is empty: nothing.
    let sol = dag_solution(None);
    assert_eq!(float_of(sol.p_error), 1.0);
    let dag = dag_of(2);
    let res = convert_to_circuit_solution(&sol, &dag);
    assert_eq!(float_of(res.p_error), 1.0);
    assert!(!res.is_feasible);
    assert!(!res.error_msg.is_empty());
    assert_eq!(res.instructions_keys.len(), 2);
    assert_eq!(res.circuit_keys.secret_keys.len(), 2);

    let res = convert_to_circuit_solution(&no_dag_solution(), &dag);
    assert!(!res.is_feasible);
    assert_eq!(res.error_msg, "No crypto-parameters for the given constraints");
}

#[test]
fn short_drops_the_bindings_only() {
    let dag = dag_of(5);
    let res = convert_to_circuit_solution(&parameters(true, 0.01), &dag);
    let short = res.short();
    assert!(short.instructions_keys.is_empty());
    assert_eq!(res.instructions_keys.len(), 5);
    assert_eq!(short.circuit_keys.secret_keys.len(), 2);
    assert_big(&short.circuit_keys.secret_keys[0]);
    assert_small(&short.circuit_keys.secret_keys[1]);
    assert_eq!(short.circuit_keys.keyswitch_keys.len(), 1);
    assert_eq!(short.circuit_keys.bootstrap_keys.len(), 1);
    assert_eq!(short.circuit_keys.circuit_bootstrap_keys.len(), 1);
    assert_eq!(short.circuit_keys.private_functional_packing_keys.len(), 1);
    assert_eq!(short.crt_decomposition, vec![7, 8, 9]);
    assert_eq!(short.complexity, res.complexity);
    assert_eq!(short.p_error, res.p_error);
    assert_eq!(short.global_p_error, res.global_p_error);
    assert_eq!(short.is_feasible, res.is_feasible);
    assert_eq!(short.error_msg, res.error_msg);
}

#[test]
fn clone_keeps_everything() {
    let dag = dag_of(3);
    let res = convert_to_circuit_solution(&parameters(true, 2.0), &dag);
    let copy = res.clone();
    assert_eq!(copy.instructions_keys.len(), 3);
    assert_eq!(copy.instructions_keys[2].tlu_circuit_bootstrap_key, 0);
    assert_eq!(copy.circuit_keys.keyswitch_keys[0].description, "tlu keyswitch");
    assert_eq!(copy.error_msg, "No crypto-parameters for the given constraints");
    assert!(!copy.is_feasible);
    assert_eq!(copy.crt_decomposition, vec![7, 8, 9]);
    let keys = res.instructions_keys[0].clone();
    assert_eq!(keys.input_key, 0);
    assert_eq!(keys.tlu_private_functional_packing_key, 0);
}

#[test]
fn reading_back_gives_the_parameters() {
    for use_wop_pbs in [false, true] {
        let sol = parameters(use_wop_pbs, 0.01);
        let dag = dag_of(2);
        let res = convert_to_circuit_solution(&sol, &dag);
        assert!(res.is_single_parameter());
        let back = DagSolution::from_circuit_solution(&res);
        assert_eq!(back.input_lwe_dimension, 1024 * 2);
        assert_eq!(back.internal_ks_output_lwe_dimension, 750);
        assert_eq!(back.ks_decomposition_level_count, 3);
        assert_eq!(back.ks_decomposition_base_log, 4);
        assert_eq!(back.glwe_polynomial_size, 1024);
        assert_eq!(back.glwe_dimension, 2);
        assert_eq!(back.br_decomposition_level_count, 1);
        assert_eq!(back.br_decomposition_base_log, 23);
        assert_eq!(float_of(back.complexity), 1.5e8);
        assert!(float_of(back.noise_max).is_nan());
        assert_eq!(float_of(back.p_error), 0.01);
        assert_eq!(float_of(back.global_p_error), 0.03);
        assert_eq!(back.use_wop_pbs, use_wop_pbs);
        if use_wop_pbs {
            assert_eq!(back.cb_decomposition_level_count, 5);
            assert_eq!(back.cb_decomposition_base_log, 6);
            assert_eq!(back.pp_decomposition_level_count, 7);
            assert_eq!(back.pp_decomposition_base_log, 8);
            assert_eq!(back.crt_decomposition, vec![7, 8, 9]);
        } else {
            assert_eq!(back.cb_decomposition_level_count, 0);
            assert_eq!(back.cb_decomposition_base_log, 0);
            assert_eq!(back.pp_decomposition_level_count, 0);
            assert_eq!(back.pp_decomposition_base_log, 0);
            assert!(back.crt_decomposition.is_empty());
        }
    }
}

fn secret(identifier: u64, polynomial_size: u64, glwe_dimension: u64) -> SecretLweKey {
    SecretLweKey {
        identifier,
        polynomial_size,
        glwe_dimension,
        description: format!("key {identifier}"),
    }
}

fn hand_made(secret_keys: Vec<SecretLweKey>) -> CircuitSolution {
    CircuitSolution {
        circuit_keys: CircuitKeys {
            secret_keys,
            keyswitch_keys: vec![KeySwitchKey {
                identifier: 0,
                input_key: secret(0, 512, 3),
                output_key: secret(1, 600, 1),
                ks_decomposition_parameter: KsDecompositionParameters { level: 9, log2_base: 2 },
                description: "ks".to_string(),
            }],
            bootstrap_keys: vec![BootstrapKey {
                identifier: 0,
                input_key: secret(1, 600, 1),
                output_key: secret(0, 512, 3),
                br_decomposition_parameter: BrDecompositionParameters { level: 2, log2_base: 15 },
                description: "br".to_string(),
            }],
            conversion_keyswitch_keys: vec![ConversionKeySwitchKey {
                identifier: 0,
                input_key: secret(0, 512, 3),
                output_key: secret(1, 600, 1),
                ks_decomposition_parameter: KsDecompositionParameters { level: 1, log2_base: 1 },
                fast_keyswitch: true,
                description: "conversion".to_string(),
            }],
            circuit_bootstrap_keys: vec![],
            private_functional_packing_keys: vec![],
        },
        instructions_keys: vec![InstructionKeys {
            input_key: 0,
            tlu_keyswitch_key: 0,
            tlu_bootstrap_key: 0,
            tlu_circuit_bootstrap_key: NO_KEY,
            tlu_private_functional_packing_key: NO_KEY,
            output_key: 0,
            extra_conversion_keys: vec![0],
        }],
        crt_decomposition: vec![],
        complexity: number_of(10.0),
        p_error: number_of(0.5),
        global_p_error: number_of(0.75),
        is_feasible: true,
        error_msg: String::new(),
    }
}

#[test]
fn lwe_dimensions_are_products_of_size_and_dimension() {
    let res = hand_made(vec![secret(0, 512, 3), secret(1, 600, 2)]);
    assert!(res.is_single_parameter());
    let back = DagSolution::from_circuit_solution(&res);
    assert_eq!(back.input_lwe_dimension, 1536);
    assert_eq!(back.internal_ks_output_lwe_dimension, 1200);
    assert_eq!(back.glwe_polynomial_size, 512);
    assert_eq!(back.glwe_dimension, 3);
    assert_eq!(back.ks_decomposition_level_count, 9);
    assert_eq!(back.ks_decomposition_base_log, 2);
    assert_eq!(back.br_decomposition_level_count, 2);
    assert_eq!(back.br_decomposition_base_log, 15);
    assert!(!back.use_wop_pbs);
    assert_eq!(float_of(back.global_p_error), 0.75);
}

#[test]
fn shapes_that_are_not_of_a_single_parameter_set() {
    // Three secret keys.
    assert!(!hand_made(vec![secret(0, 1, 1), secret(1, 1, 1), secret(2, 1, 1)])
        .is_single_parameter());
    // One secret key.
    assert!(!hand_made(vec![secret(0, 1, 1)]).is_single_parameter());
    // No key-switch key.
    let mut res = hand_made(vec![secret(0, 1, 1), secret(1, 1, 1)]);
    res.circuit_keys.keyswitch_keys.clear();
    assert!(!res.is_single_parameter());
    // No bootstrap key.
    let mut res = hand_made(vec![secret(0, 1, 1), secret(1, 1, 1)]);
    res.circuit_keys.bootstrap_keys.clear();
    assert!(!res.is_single_parameter());
    // A circuit-bootstrap key without its private-functional-packing key.
    let mut res = hand_made(vec![secret(0, 1, 1), secret(1, 1, 1)]);
    res.circuit_keys.circuit_bootstrap_keys.push(CircuitBoostrapKey {
        identifier: 0,
        representation_key: secret(0, 1, 1),
        br_decomposition_parameter: BrDecompositionParameters { level: 1, log2_base: 1 },
        description: String::new(),
    });
    assert!(!res.is_single_parameter());
    res.circuit_keys.private_functional_packing_keys.push(PrivateFunctionalPackingBoostrapKey {
        identifier: 0,
        representation_key: secret(0, 1, 1),
        br_decomposition_parameter: BrDecompositionParameters { level: 1, log2_base: 1 },
        description: String::new(),
    });
    assert!(res.is_single_parameter());
    // An LWE dimension beyond 64 bits.
    assert!(!hand_made(vec![secret(0, u64::MAX, 2), secret(1, 1, 1)]).is_single_parameter());
    assert!(!hand_made(vec![secret(0, 1, 1), secret(1, 1 << 40, 1 << 40)]).is_single_parameter());
    assert!(hand_made(vec![secret(0, u64::MAX, 1), secret(1, 1 << 32, (1 << 32) - 1)])
        .is_single_parameter());
}
