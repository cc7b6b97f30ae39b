//! What a caller may ask of the optimizer, and what is handed to it.
//!
//! The optimizer itself is not part of this library. What is decided here is
//! the request: the configuration, the processing unit, and the parameter
//! domains that remain once the caller's restrictions are laid over the
//! default ones.
use vstd::prelude::*;
use crate::double::Double;

verus! {

/// How messages are encoded in ciphertexts.
#[derive(Clone, Copy, Debug, PartialEq, Eq, Structural)]
pub enum Encoding {
    Auto,
    Native,
    Crt,
}

/// How a graph is cut into partitions that each get a parameter set.
#[derive(Clone, Copy, Debug, PartialEq, Eq, Structural)]
pub enum MultiParamStrategy {
    ByPrecision,
    ByPrecisionAndNorm2,
}

/// Optional bounds on the parameters of a GLWE key. An absent bound leaves
/// the default in place.
#[derive(Clone, Copy, Debug)]
pub struct GlweParameterRestrictions {
    pub log2_polynomial_size_min: Option<u64>,
    pub log2_polynomial_size_max: Option<u64>,
    pub glwe_dimension_min: Option<u64>,
    pub glwe_dimension_max: Option<u64>,
}

/// Optional bounds on the parameters of a decomposition.
#[derive(Clone, Copy, Debug)]
pub struct DecompositionParameterRestrictions {
    pub log2_base_min: Option<u64>,
    pub log2_base_max: Option<u64>,
    pub level_min: Option<u64>,
    pub level_max: Option<u64>,
}

/// Optional bounds on every parameter that the optimizer searches over.
#[derive(Clone, Copy, Debug)]
pub struct ParameterRestrictions {
    pub glwe_pbs: GlweParameterRestrictions,
    pub free_glwe: GlweParameterRestrictions,
    pub br_decomposition: DecompositionParameterRestrictions,
    pub ks_decomposition: DecompositionParameterRestrictions,
    pub free_lwe_min: Option<u64>,
    pub free_lwe_max: Option<u64>,
}

/// Everything a caller can set for an optimization.
#[derive(Clone, Copy, Debug)]
pub struct Options {
    pub security_level: u64,
    pub maximum_acceptable_error_probability: Double,
    pub key_sharing: bool,
    pub multi_param_strategy: MultiParamStrategy,
    pub default_log_norm2_woppbs: Double,
    pub use_gpu_constraints: bool,
    pub encoding: Encoding,
    pub cache_on_disk: bool,
    pub ciphertext_modulus_log: u32,
    pub fft_precision: u32,
    pub parameter_restrictions: ParameterRestrictions,
}

/// The values from `start` to `end` that a parameter may take.
#[derive(Clone, Copy, Debug, PartialEq, Eq, Structural)]
pub struct Range {
    pub start: u64,
    pub end: u64,
}

/// The ranges of the parameters of a GLWE key.
#[derive(Clone, Copy, Debug, PartialEq, Eq, Structural)]
pub struct GlweParameterRanges {
    pub log2_polynomial_size: Range,
    pub glwe_dimension: Range,
}

/// The ranges of the parameters of a decomposition.
#[derive(Clone, Copy, Debug, PartialEq, Eq, Structural)]
pub struct DecompositionParameterRanges {
    pub level: Range,
    pub log2_base: Range,
}

/// The ranges of every parameter that the optimizer searches over.
#[derive(Clone, Copy, Debug, PartialEq, Eq, Structural)]
pub struct ParameterDomains {
    pub glwe_pbs_constrained_cpu: GlweParameterRanges,
    pub glwe_pbs_constrained_gpu: GlweParameterRanges,
    pub free_glwe: GlweParameterRanges,
    pub br_decomposition: DecompositionParameterRanges,
    pub ks_decomposition: DecompositionParameterRanges,
    pub free_lwe: Range,
}

/// How a bootstrap is scheduled on a GPU.
#[derive(Clone, Copy, Debug, PartialEq, Eq, Structural)]
pub enum GpuPbsType {
    Lowlat,
    Amortized,
}

/// The unit that will run the computation.
#[derive(Clone, Copy, Debug, PartialEq, Eq, Structural)]
pub enum ProcessingUnit {
    Cpu,
    Gpu { pbs_type: GpuPbsType, number_of_sm: u64 },
}

/// The part of the options that configures the search itself.
#[derive(Clone, Copy, Debug)]
pub struct Config {
    pub security_level: u64,
    pub maximum_acceptable_error_probability: Double,
    pub key_sharing: bool,
    pub ciphertext_modulus_log: u32,
    pub fft_precision: u32,
}

/// One request to the optimizer.
#[derive(Clone, Copy, Debug)]
pub struct SearchRequest {
    pub config: Config,
    pub processing_unit: ProcessingUnit,
    /// The domains to search: the defaults under the caller's restrictions.
    pub domains: ParameterDomains,
    pub encoding: Encoding,
    pub default_log_norm2_woppbs: Double,
    /// How to cut the graph where several parameter sets are asked for.
    pub multi_param_strategy: MultiParamStrategy,
}

impl Range {
    /// The range with each end replaced by the bound that is given for it.
    pub open spec fn restricted(self, min: Option<u64>, max: Option<u64>) -> Range {
        Range {
            start: match min {
                Some(start) => start,
                None => self.start,
            },
            end: match max {
                Some(end) => end,
                None => self.end,
            },
        }
    }

    /// Replaces each end by the bound that is given for it. Nothing keeps the
    /// result from being empty.
    pub fn restrict(&self, min: Option<u64>, max: Option<u64>) -> (range: Range)
        ensures
            range == self.restricted(min, max),
    {
        Range {
            start: match min {
                Some(start) => start,
                None => self.start,
            },
            end: match max {
                Some(end) => end,
                None => self.end,
            },
        }
    }
}

impl GlweParameterRanges {
    pub open spec fn restricted(self, by: GlweParameterRestrictions) -> GlweParameterRanges {
        GlweParameterRanges {
            log2_polynomial_size: self.log2_polynomial_size.restricted(
                by.log2_polynomial_size_min,
                by.log2_polynomial_size_max,
            ),
            glwe_dimension: self.glwe_dimension.restricted(
                by.glwe_dimension_min,
                by.glwe_dimension_max,
            ),
        }
    }

    /// Lays the given bounds over the ranges.
    pub fn restrict(&self, by: &GlweParameterRestrictions) -> (ranges: GlweParameterRanges)
        ensures
            ranges == self.restricted(*by),
    {
        GlweParameterRanges {
            log2_polynomial_size: self.log2_polynomial_size.restrict(
                by.log2_polynomial_size_min,
                by.log2_polynomial_size_max,
            ),
            glwe_dimension: self.glwe_dimension.restrict(
                by.glwe_dimension_min,
                by.glwe_dimension_max,
            ),
        }
    }
}

impl DecompositionParameterRanges {
    pub open spec fn restricted(
        self,
        by: DecompositionParameterRestrictions,
    ) -> DecompositionParameterRanges {
        DecompositionParameterRanges {
            level: self.level.restricted(by.level_min, by.level_max),
            log2_base: self.log2_base.restricted(by.log2_base_min, by.log2_base_max),
        }
    }

    /// Lays the given bounds over the ranges.
    pub fn restrict(&self, by: &DecompositionParameterRestrictions) -> (ranges:
        DecompositionParameterRanges)
        ensures
            ranges == self.restricted(*by),
    {
        DecompositionParameterRanges {
            level: self.level.restrict(by.level_min, by.level_max),
            log2_base: self.log2_base.restrict(by.log2_base_min, by.log2_base_max),
        }
    }
}

impl ParameterDomains {
    /// The domains with every bound of `by` in place of the end it bounds.
    /// The bounds on the bootstrap's GLWE key hold on both processing units.
    pub open spec fn restricted(self, by: ParameterRestrictions) -> ParameterDomains {
        ParameterDomains {
            glwe_pbs_constrained_cpu: self.glwe_pbs_constrained_cpu.restricted(by.glwe_pbs),
            glwe_pbs_constrained_gpu: self.glwe_pbs_constrained_gpu.restricted(by.glwe_pbs),
            free_glwe: self.free_glwe.restricted(by.free_glwe),
            br_decomposition: self.br_decomposition.restricted(by.br_decomposition),
            ks_decomposition: self.ks_decomposition.restricted(by.ks_decomposition),
            free_lwe: self.free_lwe.restricted(by.free_lwe_min, by.free_lwe_max),
        }
    }
}

/// The parameter domains to search under the given options: the default
/// domains, with each end for which the options hold a bound replaced by that
/// bound.
pub fn calculate_parameter_domain(options: &Options, defaults: &ParameterDomains) -> (domains:
    ParameterDomains)
    ensures
        domains == defaults.restricted(options.parameter_restrictions),
{
    let by = &options.parameter_restrictions;
    ParameterDomains {
        glwe_pbs_constrained_cpu: defaults.glwe_pbs_constrained_cpu.restrict(&by.glwe_pbs),
        glwe_pbs_constrained_gpu: defaults.glwe_pbs_constrained_gpu.restrict(&by.glwe_pbs),
        free_glwe: defaults.free_glwe.restrict(&by.free_glwe),
        br_decomposition: defaults.br_decomposition.restrict(&by.br_decomposition),
        ks_decomposition: defaults.ks_decomposition.restrict(&by.ks_decomposition),
        free_lwe: defaults.free_lwe.restrict(by.free_lwe_min, by.free_lwe_max),
    }
}

/// The processing unit that the options ask for.
pub open spec fn spec_processing_unit(options: Options) -> ProcessingUnit {
    if options.use_gpu_constraints {
        ProcessingUnit::Gpu { pbs_type: GpuPbsType::Amortized, number_of_sm: 1 }
    } else {
        ProcessingUnit::Cpu
    }
}

/// The processing unit that the options ask for: a GPU with amortized
/// bootstraps on one streaming multiprocessor, or the CPU.
pub fn processing_unit(options: &Options) -> (unit: ProcessingUnit)
    ensures
        unit == spec_processing_unit(*options),
{
    if options.use_gpu_constraints {
        ProcessingUnit::Gpu { pbs_type: GpuPbsType::Amortized, number_of_sm: 1 }
    } else {
        ProcessingUnit::Cpu
    }
}

/// The request that the options amount to, given the default domains.
pub open spec fn spec_search_request(options: Options, defaults: ParameterDomains) -> SearchRequest {
    SearchRequest {
        config: Config {
            security_level: options.security_level,
            maximum_acceptable_error_probability: options.maximum_acceptable_error_probability,
            key_sharing: options.key_sharing,
            ciphertext_modulus_log: options.ciphertext_modulus_log,
            fft_precision: options.fft_precision,
        },
        processing_unit: spec_processing_unit(options),
        domains: defaults.restricted(options.parameter_restrictions),
        encoding: options.encoding,
        default_log_norm2_woppbs: options.default_log_norm2_woppbs,
        multi_param_strategy: options.multi_param_strategy,
    }
}

/// Builds the request to hand to the optimizer.
pub fn search_request(options: &Options, defaults: &ParameterDomains) -> (request: SearchRequest)
    ensures
        request == spec_search_request(*options, *defaults),
{
    SearchRequest {
        config: Config {
            security_level: options.security_level,
            maximum_acceptable_error_probability: options.maximum_acceptable_error_probability,
            key_sharing: options.key_sharing,
            ciphertext_modulus_log: options.ciphertext_modulus_log,
            fft_precision: options.fft_precision,
        },
        processing_unit: processing_unit(options),
        domains: calculate_parameter_domain(options, defaults),
        encoding: options.encoding,
        default_log_norm2_woppbs: options.default_log_norm2_woppbs,
        multi_param_strategy: options.multi_param_strategy,
    }
}

} // verus!
