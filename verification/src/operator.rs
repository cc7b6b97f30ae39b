//! The operators of a computation graph and what they are made of.
use vstd::prelude::*;
use vstd::slice::slice_to_vec;
use crate::double::Double;
use crate::select::views;

verus! {

/// The number of message bits of a ciphertext.
pub type Precision = u8;

/// The handle of an operator: its position in the arena of its graph. A
/// handle, once given out, names the same operator for good.
#[derive(Clone, Copy, Debug, PartialEq, Eq, Structural)]
pub struct OperatorIndex {
    pub index: usize,
}

impl View for OperatorIndex {
    type V = int;

    open spec fn view(&self) -> int {
        self.index as int
    }
}

/// The sizes of the dimensions of a tensor, outermost first. No dimension at
/// all is the shape of a scalar.
#[derive(Debug)]
pub struct Shape {
    pub dimensions_size: Vec<u64>,
}

impl View for Shape {
    type V = Seq<u64>;

    open spec fn view(&self) -> Seq<u64> {
        self.dimensions_size@
    }
}

impl Clone for Shape {
    fn clone(&self) -> (shape: Shape)
        ensures
            shape@ == self@,
    {
        Shape { dimensions_size: self.dimensions_size.clone() }
    }
}

impl Shape {
    /// The shape with the given dimension sizes.
    pub fn from_dimensions(dimensions_size: &[u64]) -> (shape: Shape)
        ensures
            shape@ == dimensions_size@,
    {
        Shape { dimensions_size: slice_to_vec(dimensions_size) }
    }
}

/// The weights of a dot product: one number for all inputs, or one number
/// for each.
#[derive(Debug)]
pub enum Weights {
    Number(i64),
    Vector(Vec<i64>),
}

pub enum WeightsView {
    Number(i64),
    Vector(Seq<i64>),
}

impl View for Weights {
    type V = WeightsView;

    open spec fn view(&self) -> WeightsView {
        match self {
            Weights::Number(weight) => WeightsView::Number(*weight),
            Weights::Vector(weights) => WeightsView::Vector(weights@),
        }
    }
}

impl Clone for Weights {
    fn clone(&self) -> (weights: Weights)
        ensures
            weights@ == self@,
    {
        match self {
            Weights::Number(weight) => Weights::Number(*weight),
            Weights::Vector(weights) => Weights::Vector(weights.clone()),
        }
    }
}

/// One weight for each input of a dot product.
pub fn vector(weights: &[i64]) -> (w: Box<Weights>)
    ensures
        w@ == WeightsView::Vector(weights@),
{
    Box::new(Weights::Vector(slice_to_vec(weights)))
}

/// One weight for all inputs of a dot product.
pub fn number(weight: i64) -> (w: Box<Weights>)
    ensures
        w@ == WeightsView::Number(weight),
{
    Box::new(Weights::Number(weight))
}

/// What a levelled operator costs: a factor on the LWE dimension, and a
/// fixed part.
#[derive(Clone, Copy, Debug)]
pub struct LevelledComplexity {
    pub lwe_dim_cost_factor: Double,
    pub fixed_cost: Double,
}

/// A key shape that is given from outside and not searched for: an operator
/// that changes partition may name it as the partition it comes from or goes
/// to.
#[derive(Debug)]
pub struct ExternalPartition {
    pub name: String,
    pub log2_polynomial_size: u64,
    pub glwe_dimension: u64,
    pub internal_dim: u64,
    pub max_variance: Double,
    pub variance: Double,
}

pub struct ExternalPartitionView {
    pub name: Seq<char>,
    pub log2_polynomial_size: u64,
    pub glwe_dimension: u64,
    pub internal_dim: u64,
    pub max_variance: Double,
    pub variance: Double,
}

impl View for ExternalPartition {
    type V = ExternalPartitionView;

    open spec fn view(&self) -> ExternalPartitionView {
        ExternalPartitionView {
            name: self.name@,
            log2_polynomial_size: self.log2_polynomial_size,
            glwe_dimension: self.glwe_dimension,
            internal_dim: self.internal_dim,
            max_variance: self.max_variance,
            variance: self.variance,
        }
    }
}

impl Clone for ExternalPartition {
    fn clone(&self) -> (partition: ExternalPartition)
        ensures
            partition@ == self@,
    {
        ExternalPartition {
            name: self.name.clone(),
            log2_polynomial_size: self.log2_polynomial_size,
            glwe_dimension: self.glwe_dimension,
            internal_dim: self.internal_dim,
            max_variance: self.max_variance,
            variance: self.variance,
        }
    }
}

/// The external partition of the given name and key shape.
pub fn get_external_partition(
    name: String,
    log2_polynomial_size: u64,
    glwe_dimension: u64,
    internal_dim: u64,
    max_variance: Double,
    variance: Double,
) -> (partition: Box<ExternalPartition>)
    ensures
        partition@ == (ExternalPartitionView {
            name: name@,
            log2_polynomial_size,
            glwe_dimension,
            internal_dim,
            max_variance,
            variance,
        }),
{
    Box::new(
        ExternalPartition {
            name,
            log2_polynomial_size,
            glwe_dimension,
            internal_dim,
            max_variance,
            variance,
        },
    )
}

/// One node of a computation graph. An operator names its inputs by their
/// handles.
#[derive(Debug)]
#[allow(inconsistent_fields)]
pub enum Operator {
    /// An encrypted input of the graph.
    Input { out_precision: Precision, out_shape: Shape },
    /// A ciphertext without noise, such as an encrypted constant.
    ZeroNoise { out_precision: Precision, out_shape: Shape },
    /// A table lookup.
    Lut { input: OperatorIndex, table: Vec<u64>, out_precision: Precision },
    /// A dot product of the inputs with clear weights.
    Dot { inputs: Vec<OperatorIndex>, weights: Weights },
    /// A levelled operator whose output noise is a weighted sum of the noise
    /// of its inputs, with one weight for each input.
    LinearNoise {
        inputs: Vec<OperatorIndex>,
        complexity: LevelledComplexity,
        weights: Vec<Double>,
        out_shape: Shape,
        comment: String,
    },
    /// A levelled operator whose output noise is the largest noise among its
    /// inputs.
    MaxNoise { inputs: Vec<OperatorIndex>, out_shape: Shape },
    /// A rounding to fewer bits.
    Round { input: OperatorIndex, out_precision: Precision },
    /// A change of precision that leaves the ciphertext as it is.
    UnsafeCast { input: OperatorIndex, out_precision: Precision },
    /// A change of partition, from or to an external one.
    ChangePartition {
        input: OperatorIndex,
        src_partition: Option<ExternalPartition>,
        dst_partition: Option<ExternalPartition>,
    },
}

#[allow(inconsistent_fields)]
pub enum OperatorView {
    Input { out_precision: Precision, out_shape: Seq<u64> },
    ZeroNoise { out_precision: Precision, out_shape: Seq<u64> },
    Lut { input: int, table: Seq<u64>, out_precision: Precision },
    Dot { inputs: Seq<int>, weights: WeightsView },
    LinearNoise {
        inputs: Seq<int>,
        complexity: LevelledComplexity,
        weights: Seq<Double>,
        out_shape: Seq<u64>,
        comment: Seq<char>,
    },
    MaxNoise { inputs: Seq<int>, out_shape: Seq<u64> },
    Round { input: int, out_precision: Precision },
    UnsafeCast { input: int, out_precision: Precision },
    ChangePartition {
        input: int,
        src_partition: Option<ExternalPartitionView>,
        dst_partition: Option<ExternalPartitionView>,
    },
}

/// The view of a partition that may be absent.
pub open spec fn partition_view(partition: Option<ExternalPartition>) -> Option<
    ExternalPartitionView,
> {
    match partition {
        Some(partition) => Some(partition@),
        None => None,
    }
}

impl View for Operator {
    type V = OperatorView;

    open spec fn view(&self) -> OperatorView {
        match self {
            Operator::Input { out_precision, out_shape } => OperatorView::Input {
                out_precision: *out_precision,
                out_shape: out_shape@,
            },
            Operator::ZeroNoise { out_precision, out_shape } => OperatorView::ZeroNoise {
                out_precision: *out_precision,
                out_shape: out_shape@,
            },
            Operator::Lut { input, table, out_precision } => OperatorView::Lut {
                input: input@,
                table: table@,
                out_precision: *out_precision,
            },
            Operator::Dot { inputs, weights } => OperatorView::Dot {
                inputs: views(inputs@),
                weights: weights@,
            },
            Operator::LinearNoise {
                inputs,
                complexity,
                weights,
                out_shape,
                comment,
            } => OperatorView::LinearNoise {
                inputs: views(inputs@),
                complexity: *complexity,
                weights: weights@,
                out_shape: out_shape@,
                comment: comment@,
            },
            Operator::MaxNoise { inputs, out_shape } => OperatorView::MaxNoise {
                inputs: views(inputs@),
                out_shape: out_shape@,
            },
            Operator::Round { input, out_precision } => OperatorView::Round {
                input: input@,
                out_precision: *out_precision,
            },
            Operator::UnsafeCast { input, out_precision } => OperatorView::UnsafeCast {
                input: input@,
                out_precision: *out_precision,
            },
            Operator::ChangePartition {
                input,
                src_partition,
                dst_partition,
            } => OperatorView::ChangePartition {
                input: input@,
                src_partition: partition_view(*src_partition),
                dst_partition: partition_view(*dst_partition),
            },
        }
    }
}

impl OperatorView {
    /// The operators that this one reads, by their handles and in the order
    /// in which it names them.
    pub open spec fn inputs(self) -> Seq<int> {
        match self {
            OperatorView::Input { .. } => Seq::empty(),
            OperatorView::ZeroNoise { .. } => Seq::empty(),
            OperatorView::Lut { input, .. } => seq![input],
            OperatorView::Dot { inputs, .. } => inputs,
            OperatorView::LinearNoise { inputs, .. } => inputs,
            OperatorView::MaxNoise { inputs, .. } => inputs,
            OperatorView::Round { input, .. } => seq![input],
            OperatorView::UnsafeCast { input, .. } => seq![input],
            OperatorView::ChangePartition { input, .. } => seq![input],
        }
    }

    /// An operator of linear noise has one weight for each input. Nothing is
    /// asked of the others.
    pub open spec fn weights_match(self) -> bool {
        match self {
            OperatorView::LinearNoise { inputs, weights, .. } => weights.len() == inputs.len(),
            _ => true,
        }
    }
}

} // verus!
