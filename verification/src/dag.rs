//! The computation graph: an arena of operators, cut into named circuits.
//!
//! Operators are only ever appended. An operator reads operators that were
//! added before it to the same circuit, so no circuit holds a cycle. What
//! links one circuit to another, or to itself for a later round, is a
//! composition: an edge from a tagged output to an input, kept in a list of
//! its own beside the operators.
use vstd::prelude::*;
use vstd::slice::slice_to_vec;
use crate::double::Double;
use crate::location::{Location, LocationView};
use crate::operator::{
    ExternalPartition, LevelledComplexity, Operator, OperatorIndex, OperatorView, Precision,
    Shape, Weights,
};
use crate::select::{lemma_marked, lemma_marked_push, marked, views};

verus! {

/// An operator in its graph: the operator itself, where it comes from, the
/// circuit it belongs to, and whether it is tagged as an output.
#[derive(Debug)]
pub struct Node {
    pub operator: Operator,
    pub location: Location,
    pub circuit: String,
    pub is_output: bool,
}

pub struct NodeView {
    pub operator: OperatorView,
    pub location: LocationView,
    pub circuit: Seq<char>,
    pub is_output: bool,
}

impl View for Node {
    type V = NodeView;

    open spec fn view(&self) -> NodeView {
        NodeView {
            operator: self.operator@,
            location: self.location@,
            circuit: self.circuit@,
            is_output: self.is_output,
        }
    }
}

/// An edge from a tagged output of one circuit to an input of a circuit.
#[derive(Clone, Copy, Debug, PartialEq, Eq, Structural)]
pub struct Composition {
    pub from: OperatorIndex,
    pub to: OperatorIndex,
}

impl View for Composition {
    type V = (int, int);

    open spec fn view(&self) -> (int, int) {
        (self.from@, self.to@)
    }
}

/// A computation graph.
#[derive(Debug)]
pub struct Dag {
    nodes: Vec<Node>,
    compositions: Vec<Composition>,
}

/// A graph as a mathematical value: its operators in the order in which they
/// were added, and its compositions as pairs `(from, to)` in the order in
/// which they were added.
pub struct DagView {
    pub nodes: Seq<NodeView>,
    pub compositions: Seq<(int, int)>,
}

impl View for Dag {
    type V = DagView;

    closed spec fn view(&self) -> DagView {
        DagView { nodes: views(self.nodes@), compositions: views(self.compositions@) }
    }
}

impl DagView {
    /// The graph without operators.
    pub open spec fn empty() -> DagView {
        DagView { nodes: Seq::empty(), compositions: Seq::empty() }
    }

    /// `index` names an operator of the circuit `circuit`.
    pub open spec fn in_circuit(self, index: int, circuit: Seq<char>) -> bool {
        0 <= index < self.nodes.len() && self.nodes[index].circuit == circuit
    }

    /// An operator can be added to the circuit `circuit`: everything it reads
    /// is in that circuit already, and it has the weights it needs.
    pub open spec fn accepts(self, operator: OperatorView, circuit: Seq<char>) -> bool {
        &&& operator.weights_match()
        &&& forall|k: int|
            0 <= k < operator.inputs().len() ==> self.in_circuit(
                #[trigger] operator.inputs()[k],
                circuit,
            )
    }

    /// What every graph that this library builds satisfies: an operator reads
    /// only earlier operators of its own circuit, an operator of linear noise
    /// has one weight for each input, and a composition leads from a tagged
    /// output to an input.
    pub open spec fn well_formed(self) -> bool {
        &&& forall|i: int, k: int|
            #![trigger self.nodes[i].operator.inputs()[k]]
            0 <= i < self.nodes.len() && 0 <= k < self.nodes[i].operator.inputs().len() ==> {
                let read = self.nodes[i].operator.inputs()[k];
                0 <= read < i && self.nodes[read].circuit == self.nodes[i].circuit
            }
        &&& forall|i: int|
            0 <= i < self.nodes.len() ==> (#[trigger] self.nodes[i]).operator.weights_match()
        &&& forall|e: int|
            0 <= e < self.compositions.len() ==> self.links(#[trigger] self.compositions[e])
    }

    /// `edge` leads from a tagged output to an input.
    pub open spec fn links(self, edge: (int, int)) -> bool {
        &&& 0 <= edge.0 < self.nodes.len()
        &&& self.nodes[edge.0].is_output
        &&& 0 <= edge.1 < self.nodes.len()
        &&& self.nodes[edge.1].operator is Input
    }

    /// The graph with one more operator at its end.
    pub open spec fn with_node(self, node: NodeView) -> DagView {
        DagView { nodes: self.nodes.push(node), ..self }
    }

    /// The graph with the operator `index` tagged as an output.
    pub open spec fn with_output(self, index: int) -> DagView {
        DagView {
            nodes: self.nodes.update(index, NodeView { is_output: true, ..self.nodes[index] }),
            ..self
        }
    }

    /// The graph with more compositions at the end of its list.
    pub open spec fn with_compositions(self, edges: Seq<(int, int)>) -> DagView {
        DagView { compositions: self.compositions + edges, ..self }
    }

    /// For each operator, whether it is an input of the graph, and of the
    /// circuit `circuit` where one is given.
    pub open spec fn input_marks(self, circuit: Option<Seq<char>>) -> Seq<bool> {
        self.nodes.map_values(
            |node: NodeView|
                node.operator is Input && (circuit matches Some(name) ==> node.circuit == name),
        )
    }

    /// For each operator, whether it is tagged as an output, and belongs to
    /// the circuit `circuit` where one is given.
    pub open spec fn output_marks(self, circuit: Option<Seq<char>>) -> Seq<bool> {
        self.nodes.map_values(
            |node: NodeView|
                node.is_output && (circuit matches Some(name) ==> node.circuit == name),
        )
    }

    /// The inputs of the graph, in the order in which they were added.
    pub open spec fn input_indices(self) -> Seq<int> {
        marked(self.input_marks(None))
    }

    /// The tagged outputs of the graph, in the order in which they were
    /// added.
    pub open spec fn output_indices(self) -> Seq<int> {
        marked(self.output_marks(None))
    }

    /// The inputs of one circuit, in the order in which they were added.
    pub open spec fn circuit_input_indices(self, circuit: Seq<char>) -> Seq<int> {
        marked(self.input_marks(Some(circuit)))
    }

    /// The tagged outputs of one circuit, in the order in which they were
    /// added.
    pub open spec fn circuit_output_indices(self, circuit: Seq<char>) -> Seq<int> {
        marked(self.output_marks(Some(circuit)))
    }

    /// The graph has a composition.
    pub open spec fn is_composed(self) -> bool {
        self.compositions.len() > 0
    }

    /// The name of the circuit of each operator.
    pub open spec fn circuit_names(self) -> Seq<Seq<char>> {
        self.nodes.map_values(|node: NodeView| node.circuit)
    }

    /// The names of the circuits: those that an operator belongs to.
    pub open spec fn circuits(self) -> Set<Seq<char>> {
        self.circuit_names().to_set()
    }
}

/// Every pair of one of `froms` with one of `tos`: the pairs of the first of
/// `froms` in the order of `tos`, then those of the second, and so on.
pub open spec fn cross(froms: Seq<int>, tos: Seq<int>) -> Seq<(int, int)>
    decreases froms.len(),
{
    if froms.len() == 0 {
        Seq::empty()
    } else {
        cross(froms.drop_last(), tos) + tos.map_values(|to: int| (froms.last(), to))
    }
}

/// The cross product holds as many pairs as there are choices of one of
/// `froms` and one of `tos`.
pub proof fn lemma_cross_len(froms: Seq<int>, tos: Seq<int>)
    ensures
        cross(froms, tos).len() == froms.len() * tos.len(),
    decreases froms.len(),
{
    let m = tos.len() as int;
    if froms.len() > 0 {
        let n = froms.len() - 1;
        lemma_cross_len(froms.drop_last(), tos);
        assert((n + 1) * m == n * m + m) by (nonlinear_arith);
    } else {
        assert(0 * m == 0) by (nonlinear_arith);
    }
}

/// The cross product holds every pair: that of the item at `a` of `froms`
/// with the item at `b` of `tos` stands at `a * tos.len() + b`.
pub proof fn lemma_cross_at(froms: Seq<int>, tos: Seq<int>, a: int, b: int)
    requires
        0 <= a < froms.len(),
        0 <= b < tos.len(),
    ensures
        0 <= a * tos.len() + b < cross(froms, tos).len(),
        cross(froms, tos)[a * tos.len() + b] == (froms[a], tos[b]),
    decreases froms.len(),
{
    let shorter = froms.drop_last();
    let n = shorter.len() as int;
    let m = tos.len() as int;
    let row = tos.map_values(|to: int| (froms.last(), to));
    lemma_cross_len(froms, tos);
    lemma_cross_len(shorter, tos);
    assert(cross(froms, tos) == cross(shorter, tos) + row);
    assert(0 <= a * m) by (nonlinear_arith)
        requires
            0 <= a,
            0 <= m,
    ;
    if a < n {
        lemma_cross_at(shorter, tos, a, b);
        assert(a * m + m <= n * m) by (nonlinear_arith)
            requires
                a + 1 <= n,
                0 <= m,
        ;
        assert((n + 1) * m == n * m + m) by (nonlinear_arith);
    } else {
        assert(a == n);
        assert((n + 1) * m == n * m + m) by (nonlinear_arith);
        assert(row[b] == (froms[a], tos[b]));
        assert(cross(froms, tos)[n * m + b] == row[b]);
    }
}

/// One who adds operators to one circuit of a graph.
pub struct DagBuilder<'dag> {
    pub dag: &'dag mut Dag,
    pub circuit: String,
}

/// A graph without operators.
pub fn empty() -> (dag: Box<Dag>)
    ensures
        dag@ == DagView::empty(),
        dag.wf(),
{
    Box::new(Dag::new())
}

impl Dag {
    /// The invariant of the graph: see [`DagView::well_formed`].
    pub open spec fn wf(&self) -> bool {
        self@.well_formed()
    }

    /// A graph without operators.
    pub fn new() -> (dag: Dag)
        ensures
            dag@ == DagView::empty(),
            dag.wf(),
    {
        let dag = Dag { nodes: Vec::new(), compositions: Vec::new() };
        assert(dag@.nodes =~= Seq::<NodeView>::empty());
        assert(dag@.compositions =~= Seq::<(int, int)>::empty());
        dag
    }

    /// One who adds operators to the circuit of the given name. The circuit
    /// comes to be with its first operator.
    pub fn builder(&mut self, circuit: String) -> (builder: Box<DagBuilder<'_>>)
        ensures
            builder.circuit == circuit,
            *builder.dag == *old(self),
            *final(builder.dag) == *final(self),
    {
        Box::new(DagBuilder { dag: self, circuit })
    }

    /// The number of operators.
    pub fn len(&self) -> (n: usize)
        ensures
            n == self@.nodes.len(),
    {
        self.nodes.len()
    }

    /// The operator of the given handle, if the graph has it.
    pub fn get(&self, index: OperatorIndex) -> (node: Option<&Node>)
        ensures
            node is Some <==> index@ < self@.nodes.len(),
            node matches Some(n) ==> n@ == self@.nodes[index@],
    {
        if index.index < self.nodes.len() {
            Some(&self.nodes[index.index])
        } else {
            None
        }
    }

    /// The compositions, in the order in which they were added.
    pub fn compositions(&self) -> (edges: &Vec<Composition>)
        ensures
            views(edges@) == self@.compositions,
    {
        &self.compositions
    }

    /// Whether the graph has a composition. A composed graph cannot be
    /// optimized under a single parameter set.
    pub fn is_composed(&self) -> (b: bool)
        ensures
            b == self@.is_composed(),
    {
        self.compositions.len() > 0
    }

    /// The handles of the operators that carry a mark: the inputs, or the
    /// tagged outputs, of the whole graph or of one circuit.
    fn select(&self, outputs: bool, circuit: Option<&String>) -> (indices: Vec<OperatorIndex>)
        ensures
            views(indices@) == marked(
                if outputs {
                    self@.output_marks(name_view(circuit))
                } else {
                    self@.input_marks(name_view(circuit))
                },
            ),
    {
        let ghost marks = if outputs {
            self@.output_marks(name_view(circuit))
        } else {
            self@.input_marks(name_view(circuit))
        };
        let mut indices: Vec<OperatorIndex> = Vec::new();
        let mut i: usize = 0;
        assert(views(indices@) =~= marked(marks.take(0)));
        while i < self.nodes.len()
            invariant
                i <= self.nodes.len(),
                marks == if outputs {
                    self@.output_marks(name_view(circuit))
                } else {
                    self@.input_marks(name_view(circuit))
                },
                views(indices@) == marked(marks.take(i as int)),
            decreases self.nodes.len() - i,
        {
            let node = &self.nodes[i];
            let of_kind: bool = if outputs {
                node.is_output
            } else {
                match node.operator {
                    Operator::Input { .. } => true,
                    _ => false,
                }
            };
            let of_circuit: bool = match circuit {
                Some(name) => node.circuit == *name,
                None => true,
            };
            let ghost before = indices@;
            if of_kind && of_circuit {
                indices.push(OperatorIndex { index: i });
            }
            proof {
                assert(self@.nodes[i as int] == node@);
                assert(marks[i as int] == (of_kind && of_circuit));
                assert(marks.take(i + 1) =~= marks.take(i as int).push(marks[i as int]));
                lemma_marked_push(marks.take(i as int), marks[i as int]);
                if of_kind && of_circuit {
                    assert(views(indices@) =~= views(before).push(i as int));
                }
            }
            i = i + 1;
        }
        assert(marks.take(i as int) =~= marks);
        indices
    }

    /// The inputs of the graph, in the order in which they were added.
    pub fn get_input_indices(&self) -> (indices: Vec<OperatorIndex>)
        ensures
            views(indices@) == self@.input_indices(),
    {
        self.select(false, None)
    }

    /// The tagged outputs of the graph, in the order in which they were
    /// added.
    pub fn get_output_indices(&self) -> (indices: Vec<OperatorIndex>)
        ensures
            views(indices@) == self@.output_indices(),
    {
        self.select(true, None)
    }

    /// The inputs of one circuit, in the order in which they were added.
    pub fn get_circuit_input_indices(&self, circuit: &str) -> (indices: Vec<OperatorIndex>)
        ensures
            views(indices@) == self@.circuit_input_indices(circuit@),
    {
        let name = String::from_str(circuit);
        self.select(false, Some(&name))
    }

    /// The tagged outputs of one circuit, in the order in which they were
    /// added.
    pub fn get_circuit_output_indices(&self, circuit: &str) -> (indices: Vec<OperatorIndex>)
        ensures
            views(indices@) == self@.circuit_output_indices(circuit@),
    {
        let name = String::from_str(circuit);
        self.select(true, Some(&name))
    }

    /// Appends compositions that lead from tagged outputs to inputs.
    fn push_composition(&mut self, from: OperatorIndex, to: OperatorIndex)
        requires
            old(self).wf(),
            old(self)@.links((from@, to@)),
        ensures
            final(self)@ == old(self)@.with_compositions(seq![(from@, to@)]),
            final(self).wf(),
    {
        let ghost before = self@;
        self.compositions.push(Composition { from, to });
        proof {
            let after = self@;
            assert(after.compositions =~= before.compositions + seq![(from@, to@)]);
            assert(after.nodes == before.nodes);
            assert forall|e: int| 0 <= e < after.compositions.len() implies after.links(
                #[trigger] after.compositions[e],
            ) by {
                if e < before.compositions.len() {
                    assert(before.links(before.compositions[e]));
                }
            }
        }
    }

    /// Composes the output at position `from_pos` among the tagged outputs of
    /// the circuit `from_func` with the input at position `to_pos` among the
    /// inputs of the circuit `to_func`. Positions count from 0, in the order
    /// in which the operators were added.
    pub fn add_composition(
        &mut self,
        from_func: &str,
        from_pos: usize,
        to_func: &str,
        to_pos: usize,
    )
        requires
            old(self).wf(),
            from_pos < old(self)@.circuit_output_indices(from_func@).len(),
            to_pos < old(self)@.circuit_input_indices(to_func@).len(),
        ensures
            final(self)@ == old(self)@.with_compositions(
                seq![
                    (
                        old(self)@.circuit_output_indices(from_func@)[from_pos as int],
                        old(self)@.circuit_input_indices(to_func@)[to_pos as int],
                    ),
                ],
            ),
            final(self).wf(),
            final(self)@.is_composed(),
    {
        let froms = self.get_circuit_output_indices(from_func);
        let tos = self.get_circuit_input_indices(to_func);
        let from = froms[from_pos];
        let to = tos[to_pos];
        proof {
            lemma_marked(self@.output_marks(Some(from_func@)));
            lemma_marked(self@.input_marks(Some(to_func@)));
            assert(views(froms@)[from_pos as int] == from@);
            assert(views(tos@)[to_pos as int] == to@);
        }
        self.push_composition(from, to);
    }

    /// Composes every tagged output of the graph with every input of the
    /// graph, for a circuit whose outputs may all come back as its inputs.
    pub fn add_all_compositions(&mut self)
        requires
            old(self).wf(),
        ensures
            final(self)@ == old(self)@.with_compositions(
                cross(old(self)@.output_indices(), old(self)@.input_indices()),
            ),
            final(self).wf(),
    {
        let froms = self.get_output_indices();
        let tos = self.get_input_indices();
        let ghost before = self@;
        let ghost from_views = views(froms@);
        let ghost to_views = views(tos@);
        proof {
            lemma_marked(before.output_marks(None));
            lemma_marked(before.input_marks(None));
            assert(before.with_compositions(cross(from_views.take(0), to_views)).compositions
                =~= before.compositions);
        }
        let mut i: usize = 0;
        while i < froms.len()
            invariant
                i <= froms.len(),
                from_views == views(froms@),
                to_views == views(tos@),
                from_views == before.output_indices(),
                to_views == before.input_indices(),
                forall|k: int|
                    0 <= k < from_views.len() ==> 0 <= #[trigger] from_views[k] < before.nodes.len()
                        && before.nodes[from_views[k]].is_output,
                forall|k: int|
                    0 <= k < to_views.len() ==> 0 <= #[trigger] to_views[k] < before.nodes.len()
                        && before.nodes[to_views[k]].operator is Input,
                self.wf(),
                self@ == before.with_compositions(cross(from_views.take(i as int), to_views)),
            decreases froms.len() - i,
        {
            let from = froms[i];
            let ghost row_start = self@;
            let mut j: usize = 0;
            proof {
                assert(row_start.with_compositions(
                    to_views.take(0).map_values(|to: int| (from@, to)),
                ).compositions =~= row_start.compositions);
            }
            while j < tos.len()
                invariant
                    j <= tos.len(),
                    i < froms.len(),
                    from == froms[i as int],
                    from_views == views(froms@),
                    to_views == views(tos@),
                    forall|k: int|
                        0 <= k < from_views.len() ==> 0 <= #[trigger] from_views[k]
                            < before.nodes.len() && before.nodes[from_views[k]].is_output,
                    forall|k: int|
                        0 <= k < to_views.len() ==> 0 <= #[trigger] to_views[k]
                            < before.nodes.len() && before.nodes[to_views[k]].operator is Input,
                    row_start.nodes == before.nodes,
                    self.wf(),
                    self@ == row_start.with_compositions(
                        to_views.take(j as int).map_values(|to: int| (from@, to)),
                    ),
                decreases tos.len() - j,
            {
                let to = tos[j];
                proof {
                    assert(from_views[i as int] == from@);
                    assert(to_views[j as int] == to@);
                }
                self.push_composition(from, to);
                proof {
                    assert(to_views.take(j + 1).map_values(|to: int| (from@, to))
                        =~= to_views.take(j as int).map_values(|to: int| (from@, to)).push(
                        (from@, to@),
                    ));
                    assert(self@.compositions =~= row_start.with_compositions(
                        to_views.take(j + 1).map_values(|to: int| (from@, to)),
                    ).compositions);
                }
                j = j + 1;
            }
            proof {
                assert(to_views.take(j as int) =~= to_views);
                let longer = from_views.take(i + 1);
                assert(longer.drop_last() =~= from_views.take(i as int));
                assert(longer.last() == from@);
                assert(self@.compositions =~= before.with_compositions(
                    cross(longer, to_views),
                ).compositions);
            }
            i = i + 1;
        }
        assert(from_views.take(i as int) =~= from_views);
    }

    /// The number of circuits: of the different names of circuits that the
    /// operators belong to.
    pub fn get_circuit_count(&self) -> (count: usize)
        ensures
            count == self@.circuits().len(),
    {
        let mut seen: Vec<String> = Vec::new();
        let ghost names = self@.circuit_names();
        let mut i: usize = 0;
        while i < self.nodes.len()
            invariant
                i <= self.nodes.len(),
                names == self@.circuit_names(),
                names.len() == self.nodes@.len(),
                views(seen@).no_duplicates(),
                views(seen@).to_set() =~= names.take(i as int).to_set(),
            decreases self.nodes.len() - i,
        {
            let name = &self.nodes[i].circuit;
            assert(names[i as int] == name@);
            let mut found: bool = false;
            let mut k: usize = 0;
            while k < seen.len()
                invariant
                    k <= seen.len(),
                    found <==> exists|a: int| 0 <= a < k && (#[trigger] seen@[a])@ == name@,
                decreases seen.len() - k,
            {
                if seen[k] == *name {
                    found = true;
                }
                k = k + 1;
            }
            let ghost before = views(seen@);
            if !found {
                seen.push(name.clone());
                assert(views(seen@) =~= before.push(name@));
            }
            proof {
                let earlier = names.take(i as int);
                let longer = names.take(i + 1);
                assert(longer =~= earlier.push(name@));
                assert(found <==> before.contains(name@)) by {
                    if found {
                        let a = choose|a: int| 0 <= a < k && (#[trigger] seen@[a])@ == name@;
                        assert(before[a] == name@);
                    }
                    if before.contains(name@) {
                        let a = choose|a: int| 0 <= a < before.len() && before[a] == name@;
                        assert(seen@[a]@ == name@);
                    }
                }
                assert forall|c: Seq<char>| longer.to_set().contains(c) <==> views(
                    seen@,
                ).to_set().contains(c) by {
                    if longer.contains(c) {
                        let a = choose|a: int| 0 <= a < longer.len() && longer[a] == c;
                        if a < i {
                            assert(earlier[a] == c);
                            assert(earlier.to_set().contains(c));
                            assert(before.contains(c));
                            let b = choose|b: int| 0 <= b < before.len() && before[b] == c;
                            assert(views(seen@)[b] == c);
                        } else {
                            assert(c == name@);
                            if found {
                                assert(before.contains(c));
                            } else {
                                assert(views(seen@)[before.len() as int] == c);
                            }
                        }
                    }
                    if views(seen@).contains(c) {
                        let b = choose|b: int| 0 <= b < views(seen@).len() && views(seen@)[b] == c;
                        if b < before.len() {
                            assert(before[b] == c);
                            assert(before.to_set().contains(c));
                            assert(earlier.contains(c));
                            let a = choose|a: int| 0 <= a < earlier.len() && earlier[a] == c;
                            assert(longer[a] == c);
                        } else {
                            assert(c == name@);
                            assert(longer[i as int] == c);
                        }
                    }
                }
            }
            i = i + 1;
        }
        proof {
            assert(names.take(i as int) =~= names);
            views(seen@).unique_seq_to_set();
        }
        seen.len()
    }
}

/// The view of a name that may be absent.
pub open spec fn name_view(name: Option<&String>) -> Option<Seq<char>> {
    match name {
        Some(name) => Some(name@),
        None => None,
    }
}

impl<'dag> DagBuilder<'dag> {
    /// Appends an operator to the graph, in this builder's circuit.
    fn add_operator(&mut self, operator: Operator, location: Location) -> (index: OperatorIndex)
        requires
            old(self).dag.wf(),
            old(self).dag@.accepts(operator@, old(self).circuit@),
        ensures
            final(self).dag@ == old(self).dag@.with_node(
                NodeView {
                    operator: operator@,
                    location: location@,
                    circuit: old(self).circuit@,
                    is_output: false,
                },
            ),
            index@ == old(self).dag@.nodes.len(),
            final(self).dag.wf(),
            final(self).circuit == old(self).circuit,
            *final(final(self).dag) == *final(old(self).dag),
    {
        let index: usize = self.dag.nodes.len();
        let node = Node { operator, location, circuit: self.circuit.clone(), is_output: false };
        let ghost before = self.dag@;
        self.dag.nodes.push(node);
        proof {
            let after = self.dag@;
            assert(after.nodes =~= before.nodes.push(node@));
            assert(after == before.with_node(node@));
            assert forall|i: int, k: int|
                #![trigger after.nodes[i].operator.inputs()[k]]
                0 <= i < after.nodes.len() && 0 <= k < after.nodes[i].operator.inputs().len()
                implies ({
                let read = after.nodes[i].operator.inputs()[k];
                0 <= read < i && after.nodes[read].circuit == after.nodes[i].circuit
            }) by {
                if i < before.nodes.len() {
                    assert(after.nodes[i] == before.nodes[i]);
                    let read = before.nodes[i].operator.inputs()[k];
                    assert(0 <= read < i);
                } else {
                    assert(before.in_circuit(node@.operator.inputs()[k], node@.circuit));
                }
            }
            assert forall|e: int| 0 <= e < after.compositions.len() implies after.links(
                #[trigger] after.compositions[e],
            ) by {
                assert(before.links(before.compositions[e]));
            }
        }
        OperatorIndex { index }
    }

    /// Adds an encrypted input of the given precision and shape.
    pub fn add_input(&mut self, out_precision: Precision, out_shape: &[u64], location: &Location) -> (index:
        OperatorIndex)
        requires
            old(self).dag.wf(),
        ensures
            final(self).dag@ == old(self).dag@.with_node(
                NodeView {
                    operator: OperatorView::Input { out_precision, out_shape: out_shape@ },
                    location: location@,
                    circuit: old(self).circuit@,
                    is_output: false,
                },
            ),
            index@ == old(self).dag@.nodes.len(),
            final(self).dag.wf(),
            final(self).circuit == old(self).circuit,
            *final(final(self).dag) == *final(old(self).dag),
    {
        let operator = Operator::Input {
            out_precision,
            out_shape: Shape::from_dimensions(out_shape),
        };
        self.add_operator(operator, location.clone())
    }

    /// Adds a table lookup on `input`.
    pub fn add_lut(
        &mut self,
        input: OperatorIndex,
        table: &[u64],
        out_precision: Precision,
        location: &Location,
    ) -> (index: OperatorIndex)
        requires
            old(self).dag.wf(),
            old(self).dag@.in_circuit(input@, old(self).circuit@),
        ensures
            final(self).dag@ == old(self).dag@.with_node(
                NodeView {
                    operator: OperatorView::Lut { input: input@, table: table@, out_precision },
                    location: location@,
                    circuit: old(self).circuit@,
                    is_output: false,
                },
            ),
            index@ == old(self).dag@.nodes.len(),
            final(self).dag.wf(),
            final(self).circuit == old(self).circuit,
            *final(final(self).dag) == *final(old(self).dag),
    {
        let operator = Operator::Lut { input, table: slice_to_vec(table), out_precision };
        self.add_operator(operator, location.clone())
    }

    /// Whether `op` names an operator of this builder's circuit: what an
    /// operator that is to be added may read.
    pub fn contains(&self, op: OperatorIndex) -> (b: bool)
        ensures
            b == old(self.dag)@.in_circuit(op@, self.circuit@),
    {
        op.index < self.dag.nodes.len() && self.dag.nodes[op.index].circuit == self.circuit
    }

    /// Adds a ciphertext without noise of the given precision and shape.
    pub fn add_zero_noise(
        &mut self,
        out_precision: Precision,
        out_shape: &[u64],
        location: &Location,
    ) -> (index: OperatorIndex)
        requires
            old(self).dag.wf(),
        ensures
            final(self).dag@ == old(self).dag@.with_node(
                NodeView {
                    operator: OperatorView::ZeroNoise { out_precision, out_shape: out_shape@ },
                    location: location@,
                    circuit: old(self).circuit@,
                    is_output: false,
                },
            ),
            index@ == old(self).dag@.nodes.len(),
            final(self).dag.wf(),
            final(self).circuit == old(self).circuit,
            *final(final(self).dag) == *final(old(self).dag),
    {
        let operator = Operator::ZeroNoise {
            out_precision,
            out_shape: Shape::from_dimensions(out_shape),
        };
        self.add_operator(operator, location.clone())
    }

    /// Adds a dot product of `inputs` with `weights`.
    pub fn add_dot(
        &mut self,
        inputs: &[OperatorIndex],
        weights: Box<Weights>,
        location: &Location,
    ) -> (index: OperatorIndex)
        requires
            old(self).dag.wf(),
            forall|k: int|
                0 <= k < inputs@.len() ==> old(self).dag@.in_circuit(
                    (#[trigger] inputs@[k])@,
                    old(self).circuit@,
                ),
        ensures
            final(self).dag@ == old(self).dag@.with_node(
                NodeView {
                    operator: OperatorView::Dot { inputs: views(inputs@), weights: weights@ },
                    location: location@,
                    circuit: old(self).circuit@,
                    is_output: false,
                },
            ),
            index@ == old(self).dag@.nodes.len(),
            final(self).dag.wf(),
            final(self).circuit == old(self).circuit,
            *final(final(self).dag) == *final(old(self).dag),
    {
        let operator = Operator::Dot { inputs: slice_to_vec(inputs), weights: *weights };
        self.add_operator(operator, location.clone())
    }

    /// Adds a levelled operator of the given cost whose output noise is the
    /// sum of the noise of its inputs, each under its weight.
    pub fn add_linear_noise(
        &mut self,
        inputs: &[OperatorIndex],
        lwe_dim_cost_factor: Double,
        fixed_cost: Double,
        weights: &[Double],
        out_shape: &[u64],
        comment: &str,
        location: &Location,
    ) -> (index: OperatorIndex)
        requires
            old(self).dag.wf(),
            weights@.len() == inputs@.len(),
            forall|k: int|
                0 <= k < inputs@.len() ==> old(self).dag@.in_circuit(
                    (#[trigger] inputs@[k])@,
                    old(self).circuit@,
                ),
        ensures
            final(self).dag@ == old(self).dag@.with_node(
                NodeView {
                    operator: OperatorView::LinearNoise {
                        inputs: views(inputs@),
                        complexity: LevelledComplexity { lwe_dim_cost_factor, fixed_cost },
                        weights: weights@,
                        out_shape: out_shape@,
                        comment: comment@,
                    },
                    location: location@,
                    circuit: old(self).circuit@,
                    is_output: false,
                },
            ),
            index@ == old(self).dag@.nodes.len(),
            final(self).dag.wf(),
            final(self).circuit == old(self).circuit,
            *final(final(self).dag) == *final(old(self).dag),
    {
        let operator = Operator::LinearNoise {
            inputs: slice_to_vec(inputs),
            complexity: LevelledComplexity { lwe_dim_cost_factor, fixed_cost },
            weights: slice_to_vec(weights),
            out_shape: Shape::from_dimensions(out_shape),
            comment: String::from_str(comment),
        };
        self.add_operator(operator, location.clone())
    }

    /// Adds a levelled operator whose output noise is the largest noise
    /// among its inputs.
    pub fn add_max_noise(
        &mut self,
        inputs: &[OperatorIndex],
        out_shape: &[u64],
        location: &Location,
    ) -> (index: OperatorIndex)
        requires
            old(self).dag.wf(),
            forall|k: int|
                0 <= k < inputs@.len() ==> old(self).dag@.in_circuit(
                    (#[trigger] inputs@[k])@,
                    old(self).circuit@,
                ),
        ensures
            final(self).dag@ == old(self).dag@.with_node(
                NodeView {
                    operator: OperatorView::MaxNoise { inputs: views(inputs@), out_shape: out_shape@ },
                    location: location@,
                    circuit: old(self).circuit@,
                    is_output: false,
                },
            ),
            index@ == old(self).dag@.nodes.len(),
            final(self).dag.wf(),
            final(self).circuit == old(self).circuit,
            *final(final(self).dag) == *final(old(self).dag),
    {
        let operator = Operator::MaxNoise {
            inputs: slice_to_vec(inputs),
            out_shape: Shape::from_dimensions(out_shape),
        };
        self.add_operator(operator, location.clone())
    }

    /// Adds a rounding of `input` to `rounded_precision` bits.
    pub fn add_round_op(
        &mut self,
        input: OperatorIndex,
        rounded_precision: Precision,
        location: &Location,
    ) -> (index: OperatorIndex)
        requires
            old(self).dag.wf(),
            old(self).dag@.in_circuit(input@, old(self).circuit@),
        ensures
            final(self).dag@ == old(self).dag@.with_node(
                NodeView {
                    operator: OperatorView::Round { input: input@, out_precision: rounded_precision },
                    location: location@,
                    circuit: old(self).circuit@,
                    is_output: false,
                },
            ),
            index@ == old(self).dag@.nodes.len(),
            final(self).dag.wf(),
            final(self).circuit == old(self).circuit,
            *final(final(self).dag) == *final(old(self).dag),
    {
        let operator = Operator::Round { input, out_precision: rounded_precision };
        self.add_operator(operator, location.clone())
    }

    /// Adds a cast of `input` to `new_precision` bits that leaves the
    /// ciphertext as it is.
    pub fn add_unsafe_cast_op(
        &mut self,
        input: OperatorIndex,
        new_precision: Precision,
        location: &Location,
    ) -> (index: OperatorIndex)
        requires
            old(self).dag.wf(),
            old(self).dag@.in_circuit(input@, old(self).circuit@),
        ensures
            final(self).dag@ == old(self).dag@.with_node(
                NodeView {
                    operator: OperatorView::UnsafeCast { input: input@, out_precision: new_precision },
                    location: location@,
                    circuit: old(self).circuit@,
                    is_output: false,
                },
            ),
            index@ == old(self).dag@.nodes.len(),
            final(self).dag.wf(),
            final(self).circuit == old(self).circuit,
            *final(final(self).dag) == *final(old(self).dag),
    {
        let operator = Operator::UnsafeCast { input, out_precision: new_precision };
        self.add_operator(operator, location.clone())
    }

    /// Adds a change of partition that takes `input` out of the external
    /// partition `src_partition`.
    pub fn add_change_partition_with_src(
        &mut self,
        input: OperatorIndex,
        src_partition: &ExternalPartition,
        location: &Location,
    ) -> (index: OperatorIndex)
        requires
            old(self).dag.wf(),
            old(self).dag@.in_circuit(input@, old(self).circuit@),
        ensures
            final(self).dag@ == old(self).dag@.with_node(
                NodeView {
                    operator: OperatorView::ChangePartition {
                        input: input@,
                        src_partition: Some(src_partition@),
                        dst_partition: None,
                    },
                    location: location@,
                    circuit: old(self).circuit@,
                    is_output: false,
                },
            ),
            index@ == old(self).dag@.nodes.len(),
            final(self).dag.wf(),
            final(self).circuit == old(self).circuit,
            *final(final(self).dag) == *final(old(self).dag),
    {
        let operator = Operator::ChangePartition {
            input,
            src_partition: Some(src_partition.clone()),
            dst_partition: None,
        };
        self.add_operator(operator, location.clone())
    }

    /// Adds a change of partition that takes `input` into the external
    /// partition `dst_partition`.
    pub fn add_change_partition_with_dst(
        &mut self,
        input: OperatorIndex,
        dst_partition: &ExternalPartition,
        location: &Location,
    ) -> (index: OperatorIndex)
        requires
            old(self).dag.wf(),
            old(self).dag@.in_circuit(input@, old(self).circuit@),
        ensures
            final(self).dag@ == old(self).dag@.with_node(
                NodeView {
                    operator: OperatorView::ChangePartition {
                        input: input@,
                        src_partition: None,
                        dst_partition: Some(dst_partition@),
                    },
                    location: location@,
                    circuit: old(self).circuit@,
                    is_output: false,
                },
            ),
            index@ == old(self).dag@.nodes.len(),
            final(self).dag.wf(),
            final(self).circuit == old(self).circuit,
            *final(final(self).dag) == *final(old(self).dag),
    {
        let operator = Operator::ChangePartition {
            input,
            src_partition: None,
            dst_partition: Some(dst_partition.clone()),
        };
        self.add_operator(operator, location.clone())
    }

    /// Tags an operator as an output of its circuit.
    pub fn tag_operator_as_output(&mut self, op: OperatorIndex)
        requires
            old(self).dag.wf(),
            op@ < old(self).dag@.nodes.len(),
        ensures
            final(self).dag@ == old(self).dag@.with_output(op@),
            final(self).dag.wf(),
            final(self).circuit == old(self).circuit,
            *final(final(self).dag) == *final(old(self).dag),
    {
        let ghost before = self.dag@;
        self.dag.nodes[op.index].is_output = true;
        proof {
            let after = self.dag@;
            assert(after.nodes =~= before.with_output(op@).nodes);
            assert forall|i: int, k: int|
                #![trigger after.nodes[i].operator.inputs()[k]]
                0 <= i < after.nodes.len() && 0 <= k < after.nodes[i].operator.inputs().len()
                implies ({
                let read = after.nodes[i].operator.inputs()[k];
                0 <= read < i && after.nodes[read].circuit == after.nodes[i].circuit
            }) by {
                let read = before.nodes[i].operator.inputs()[k];
                assert(0 <= read < i);
            }
            assert forall|e: int| 0 <= e < after.compositions.len() implies after.links(
                #[trigger] after.compositions[e],
            ) by {
                assert(before.links(before.compositions[e]));
            }
        }
    }
}

} // verus!
