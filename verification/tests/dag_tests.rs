use circuit_keyset::compile::convert_to_circuit_solution;
use circuit_keyset::dag::{empty, Composition, Dag};
use circuit_keyset::double::Double;
use circuit_keyset::location::{location_from_string, location_unknown, Location};
use circuit_keyset::operator::{
    get_external_partition, number, vector, Operator, OperatorIndex, Weights,
};
use circuit_keyset::optimize::DagOptimization;
use circuit_keyset::options::{
    DecompositionParameterRanges, DecompositionParameterRestrictions, Encoding,
    GlweParameterRanges, GlweParameterRestrictions, MultiParamStrategy, Options,
    ParameterDomains, ParameterRestrictions, ProcessingUnit, Range,
};

fn at(index: usize) -> OperatorIndex {
    OperatorIndex { index }
}

fn positions(indices: &[OperatorIndex]) -> Vec<usize> {
    indices.iter().map(|i| i.index).collect()
}

fn edges(dag: &Dag) -> Vec<(usize, usize)> {
    dag.compositions().iter().map(|c| (c.from.index, c.to.index)).collect()
}

fn plain_options() -> Options {
    let glwe = GlweParameterRestrictions {
        log2_polynomial_size_min: None,
        log2_polynomial_size_max: None,
        glwe_dimension_min: None,
        glwe_dimension_max: None,
    };
    let decomposition = DecompositionParameterRestrictions {
        log2_base_min: None,
        log2_base_max: None,
        level_min: None,
        level_max: None,
    };
    Options {
        security_level: 128,
        maximum_acceptable_error_probability: Double::from_bits(0.0f64.to_bits()),
        key_sharing: false,
        multi_param_strategy: MultiParamStrategy::ByPrecision,
        default_log_norm2_woppbs: Double::from_bits(8.0f64.to_bits()),
        use_gpu_constraints: false,
        encoding: Encoding::Auto,
        cache_on_disk: false,
        ciphertext_modulus_log: 64,
        fft_precision: 53,
        parameter_restrictions: ParameterRestrictions {
            glwe_pbs: glwe,
            free_glwe: glwe,
            br_decomposition: decomposition,
            ks_decomposition: decomposition,
            free_lwe_min: Some(10),
            free_lwe_max: Some(5),
        },
    }
}

fn some_domains() -> ParameterDomains {
    let glwe = GlweParameterRanges {
        log2_polynomial_size: Range { start: 8, end: 18 },
        glwe_dimension: Range { start: 1, end: 7 },
    };
    let decomposition = DecompositionParameterRanges {
        level: Range { start: 1, end: 65 },
        log2_base: Range { start: 1, end: 65 },
    };
    ParameterDomains {
        glwe_pbs_constrained_cpu: glwe,
        glwe_pbs_constrained_gpu: glwe,
        free_glwe: glwe,
        br_decomposition: decomposition,
        ks_decomposition: decomposition,
        free_lwe: Range { start: 512, end: 1025 },
    }
}

#[test]
fn empty_graph_has_nothing() {
    let dag = empty();
    assert_eq!(dag.len(), 0);
    assert!(dag.get_input_indices().is_empty());
    assert!(dag.get_output_indices().is_empty());
    assert_eq!(dag.get_circuit_count(), 0);
    assert!(!dag.is_composed());
    assert!(dag.compositions().is_empty());
    assert!(dag.get(at(0)).is_none());
    let dag = Dag::new();
    assert_eq!(dag.len(), 0);
}

#[test]
fn input_and_lookup_round_trip() {
    let mut dag = empty();
    let location = location_unknown();
    let table: Vec<u64> = (0..256).collect();
    let lut = {
        let mut builder = dag.builder("main".to_string());
        let input = builder.add_input(8, &[], &location);
        assert_eq!(input.index, 0);
        let lut = builder.add_lut(input, &table, 8, &location);
        builder.tag_operator_as_output(lut);
        lut
    };
    let outputs = dag.get_output_indices();
    assert_eq!(outputs.len(), 1);
    assert_eq!(outputs[0], lut);
    assert_eq!(outputs[0].index, 1);
    assert_eq!(positions(&dag.get_input_indices()), vec![0]);
    assert_eq!(dag.len(), 2);
    assert_eq!(dag.get_circuit_count(), 1);

    let node = dag.get(at(0)).unwrap();
    assert!(matches!(&node.operator, Operator::Input { out_precision: 8, out_shape }
        if out_shape.dimensions_size.is_empty()));
    assert_eq!(node.circuit, "main");
    assert!(!node.is_output);
    assert!(matches!(node.location, Location::Unknown));
    let node = dag.get(lut).unwrap();
    assert!(matches!(&node.operator, Operator::Lut { input, table: t, out_precision: 8 }
        if input.index == 0 && *t == table));
    assert!(node.is_output);
    assert!(dag.get(at(2)).is_none());
}

#[test]
fn every_operation_appends_at_the_next_index() {
    let mut dag = empty();
    let location = location_from_string("model.py:12:3");
    let source = get_external_partition(
        "source".to_string(),
        10,
        2,
        700,
        Double::from_bits(1.5f64.to_bits()),
        Double::from_bits(0.5f64.to_bits()),
    );
    assert_eq!(source.name, "source");
    assert_eq!(source.log2_polynomial_size, 10);
    assert_eq!(source.glwe_dimension, 2);
    assert_eq!(source.internal_dim, 700);
    assert_eq!(f64::from_bits(source.max_variance.to_bits()), 1.5);
    assert_eq!(f64::from_bits(source.variance.to_bits()), 0.5);
    {
        let mut b = dag.builder("c".to_string());
        let a = b.add_input(3, &[2, 4], &location);
        let z = b.add_zero_noise(5, &[7], &location);
        let lut = b.add_lut(a, &[1, 2, 3], 6, &location);
        let dot = b.add_dot(&[a, z], vector(&[2, -3]), &location);
        let dot2 = b.add_dot(&[lut], number(9), &location);
        let weights = [Double::from_bits(1.0f64.to_bits()), Double::from_bits(2.0f64.to_bits())];
        let lin = b.add_linear_noise(
            &[dot, dot2],
            Double::from_bits(3.0f64.to_bits()),
            Double::from_bits(4.0f64.to_bits()),
            &weights,
            &[5, 5],
            "conv",
            &location,
        );
        let max = b.add_max_noise(&[lin, a], &[1], &location);
        let round = b.add_round_op(max, 2, &location);
        let cast = b.add_unsafe_cast_op(round, 7, &location);
        let from_src = b.add_change_partition_with_src(cast, &source, &location);
        let to_dst = b.add_change_partition_with_dst(from_src, &source, &location);
        assert_eq!(
            positions(&[a, z, lut, dot, dot2, lin, max, round, cast, from_src, to_dst]),
            (0..11).collect::<Vec<usize>>()
        );
        assert!(b.contains(to_dst));
        assert!(!b.contains(at(11)));
    }
    assert_eq!(dag.len(), 11);
    for i in 0..11 {
        let node = dag.get(at(i)).unwrap();
        assert_eq!(node.circuit, "c");
        assert!(!node.is_output);
        assert!(matches!(&node.location, Location::LineColumn(f, 12, 3) if f == "model.py"));
    }
    assert!(matches!(&dag.get(at(0)).unwrap().operator,
        Operator::Input { out_precision: 3, out_shape } if out_shape.dimensions_size == [2, 4]));
    assert!(matches!(&dag.get(at(1)).unwrap().operator,
        Operator::ZeroNoise { out_precision: 5, out_shape } if out_shape.dimensions_size == [7]));
    assert!(matches!(&dag.get(at(2)).unwrap().operator,
        Operator::Lut { input, table, out_precision: 6 }
        if input.index == 0 && *table == [1, 2, 3]));
    assert!(matches!(&dag.get(at(3)).unwrap().operator,
        Operator::Dot { inputs, weights: Weights::Vector(w) }
        if positions(inputs) == [0, 1] && *w == [2, -3]));
    assert!(matches!(&dag.get(at(4)).unwrap().operator,
        Operator::Dot { inputs, weights: Weights::Number(9) } if positions(inputs) == [2]));
    match &dag.get(at(5)).unwrap().operator {
        Operator::LinearNoise { inputs, complexity, weights, out_shape, comment } => {
            assert_eq!(positions(inputs), [3, 4]);
            assert_eq!(f64::from_bits(complexity.lwe_dim_cost_factor.to_bits()), 3.0);
            assert_eq!(f64::from_bits(complexity.fixed_cost.to_bits()), 4.0);
            let weights: Vec<f64> = weights.iter().map(|w| f64::from_bits(w.to_bits())).collect();
            assert_eq!(weights, [1.0, 2.0]);
            assert_eq!(out_shape.dimensions_size, [5, 5]);
            assert_eq!(comment, "conv");
        }
        other => panic!("not a linear noise: {other:?}"),
    }
    assert!(matches!(&dag.get(at(6)).unwrap().operator,
        Operator::MaxNoise { inputs, out_shape }
        if positions(inputs) == [5, 0] && out_shape.dimensions_size == [1]));
    assert!(matches!(&dag.get(at(7)).unwrap().operator,
        Operator::Round { input, out_precision: 2 } if input.index == 6));
    assert!(matches!(&dag.get(at(8)).unwrap().operator,
        Operator::UnsafeCast { input, out_precision: 7 } if input.index == 7));
    assert!(matches!(&dag.get(at(9)).unwrap().operator,
        Operator::ChangePartition { input, src_partition: Some(p), dst_partition: None }
        if input.index == 8 && p.name == "source" && p.internal_dim == 700));
    assert!(matches!(&dag.get(at(10)).unwrap().operator,
        Operator::ChangePartition { input, src_partition: None, dst_partition: Some(p) }
        if input.index == 9 && p.log2_polynomial_size == 10 && p.glwe_dimension == 2));
    // Nothing was tagged, so the graph has no output yet.
    assert!(dag.get_output_indices().is_empty());
    assert_eq!(positions(&dag.get_input_indices()), vec![0]);
}

#[test]
fn weights_are_a_number_or_a_vector() {
    assert!(matches!(*number(-4), Weights::Number(-4)));
    assert!(matches!(&*vector(&[1, 2, 3]), Weights::Vector(w) if *w == [1, 2, 3]));
    assert!(matches!(&*vector(&[]), Weights::Vector(w) if w.is_empty()));
    assert!(matches!(&*vector(&[5]).clone(), Weights::Vector(w) if *w == [5]));
}

fn two_circuits() -> Box<Dag> {
    let mut dag = empty();
    let location = location_unknown();
    {
        let mut f = dag.builder("f".to_string());
        let x = f.add_input(4, &[], &location); // 0
        let y = f.add_input(4, &[], &location); // 1
        let sum = f.add_dot(&[x, y], number(1), &location); // 2
        let lut = f.add_lut(sum, &[0, 1, 2, 3], 4, &location); // 3
        f.tag_operator_as_output(lut);
        f.tag_operator_as_output(sum);
    }
    {
        let mut g = dag.builder("g".to_string());
        let z = g.add_input(4, &[], &location); // 4
        assert!(g.contains(z));
        assert!(!g.contains(at(0)));
        let lut = g.add_lut(z, &[3, 2, 1, 0], 4, &location); // 5
        g.tag_operator_as_output(lut);
    }
    {
        // A circuit may be taken up again.
        let mut f = dag.builder("f".to_string());
        let w = f.add_input(2, &[], &location); // 6
        f.tag_operator_as_output(w);
    }
    dag
}

#[test]
fn inputs_and_outputs_come_in_insertion_order() {
    let dag = two_circuits();
    assert_eq!(positions(&dag.get_input_indices()), vec![0, 1, 4, 6]);
    assert_eq!(positions(&dag.get_output_indices()), vec![2, 3, 5, 6]);
    assert_eq!(positions(&dag.get_circuit_input_indices("f")), vec![0, 1, 6]);
    assert_eq!(positions(&dag.get_circuit_output_indices("f")), vec![2, 3, 6]);
    assert_eq!(positions(&dag.get_circuit_input_indices("g")), vec![4]);
    assert_eq!(positions(&dag.get_circuit_output_indices("g")), vec![5]);
    assert!(dag.get_circuit_input_indices("h").is_empty());
    assert!(dag.get_circuit_output_indices("").is_empty());
}

#[test]
fn circuits_are_counted_by_name() {
    let dag = two_circuits();
    assert_eq!(dag.get_circuit_count(), 2);
    let mut dag = empty();
    let location = location_unknown();
    for name in ["a", "b", "a", "c", "b", "", "a"] {
        let mut builder = dag.builder(name.to_string());
        builder.add_input(1, &[], &location);
    }
    assert_eq!(dag.get_circuit_count(), 4);
    // A builder that adds nothing starts no circuit.
    {
        let _idle = dag.builder("idle".to_string());
    }
    assert_eq!(dag.get_circuit_count(), 4);
}

#[test]
fn tagging_twice_changes_nothing() {
    let mut dag = empty();
    let location = location_unknown();
    {
        let mut b = dag.builder("f".to_string());
        let x = b.add_input(4, &[], &location);
        b.tag_operator_as_output(x);
        b.tag_operator_as_output(x);
    }
    assert_eq!(positions(&dag.get_output_indices()), vec![0]);
    assert_eq!(positions(&dag.get_input_indices()), vec![0]);
}

#[test]
fn composition_links_an_output_to_an_input() {
    let mut dag = empty();
    let location = location_unknown();
    {
        let mut f = dag.builder("f".to_string());
        let x = f.add_input(4, &[], &location);
        let lut = f.add_lut(x, &[0, 1], 4, &location);
        f.tag_operator_as_output(lut);
    }
    {
        let mut g = dag.builder("g".to_string());
        g.add_input(4, &[], &location);
    }
    assert!(!dag.is_composed());
    assert!(matches!(
        dag.optimize(&plain_options(), &some_domains()),
        DagOptimization::AskOptimizer(_)
    ));
    dag.add_composition("f", 0, "g", 0);
    assert!(dag.is_composed());
    assert_eq!(edges(&dag), vec![(1, 2)]);
    assert_eq!(dag.compositions()[0], Composition { from: at(1), to: at(2) });

    // A composed graph is settled without a search, as having no solution.
    match dag.optimize(&plain_options(), &some_domains()) {
        DagOptimization::Settled(solution) => {
            assert_eq!(f64::from_bits(solution.p_error.to_bits()), 1.0);
            assert_eq!(solution.glwe_polynomial_size, 0);
            assert!(!solution.use_wop_pbs);
            let circuit = convert_to_circuit_solution(&solution, &dag);
            assert!(!circuit.is_feasible);
            assert!(!circuit.error_msg.is_empty());
            assert_eq!(circuit.instructions_keys.len(), 3);
        }
        DagOptimization::AskOptimizer(_) => panic!("the optimizer must not be asked"),
    }
}

#[test]
fn composition_positions_count_within_the_circuit() {
    let mut dag = two_circuits();
    dag.add_composition("f", 2, "f", 1);
    dag.add_composition("g", 0, "f", 2);
    dag.add_composition("f", 0, "g", 0);
    dag.add_composition("f", 0, "g", 0);
    assert_eq!(edges(&dag), vec![(6, 1), (5, 6), (2, 4), (2, 4)]);
    // Compositions are no edges of the graph: the operators are as before.
    assert_eq!(dag.len(), 7);
    assert_eq!(positions(&dag.get_input_indices()), vec![0, 1, 4, 6]);
    assert_eq!(positions(&dag.get_output_indices()), vec![2, 3, 5, 6]);
}

#[test]
fn all_compositions_is_the_cross_product() {
    let mut dag = two_circuits();
    dag.add_all_compositions();
    let mut expected: Vec<(usize, usize)> = Vec::new();
    for from in [2, 3, 5, 6] {
        for to in [0, 1, 4, 6] {
            expected.push((from, to));
        }
    }
    assert_eq!(edges(&dag), expected);
    assert!(dag.is_composed());

    let mut none = empty();
    none.add_all_compositions();
    assert!(!none.is_composed());

    // Inputs without a tagged output give no composition.
    let mut dag = empty();
    {
        let mut b = dag.builder("f".to_string());
        b.add_input(1, &[], &location_unknown());
    }
    dag.add_all_compositions();
    assert!(!dag.is_composed());
}

#[test]
fn requests_carry_the_restricted_domains() {
    let dag = two_circuits();
    match dag.optimize(&plain_options(), &some_domains()) {
        DagOptimization::AskOptimizer(request) => {
            assert_eq!(request.domains.free_lwe, Range { start: 10, end: 5 });
            assert_eq!(request.processing_unit, ProcessingUnit::Cpu);
            assert_eq!(request.encoding, Encoding::Auto);
            assert_eq!(
                f64::from_bits(request.config.maximum_acceptable_error_probability.to_bits()),
                0.0
            );
        }
        DagOptimization::Settled(_) => panic!("a graph without composition is searched for"),
    }
    let mut composed = two_circuits();
    composed.add_all_compositions();
    let request = composed.optimize_multi(&plain_options(), &some_domains());
    assert_eq!(request.multi_param_strategy, MultiParamStrategy::ByPrecision);
    assert_eq!(request.domains.free_lwe, Range { start: 10, end: 5 });
    assert_eq!(request.domains.br_decomposition, some_domains().br_decomposition);
}
