//! The keys of a circuit and the table that binds operators to them.
//!
//! Every key carries an identifier that is unique among the keys of its kind
//! in one [`CircuitKeys`]. An [`InstructionKeys`] names keys by these
//! identifiers; [`NO_KEY`] in a slot says that the operator uses no key of
//! that kind.
use vstd::prelude::*;
use crate::double::Double;
use crate::select::views;

verus! {

/// The identifier that stands for "no key": a slot of an [`InstructionKeys`]
/// that holds it is unbound.
pub const NO_KEY: u64 = 0xFFFF_FFFF_FFFF_FFFF;

/// The identifier that stands for "no key".
#[allow(non_snake_case)]
pub fn NO_KEY_ID() -> (id: u64)
    ensures
        id == NO_KEY,
{
    NO_KEY
}

/// Level count and base logarithm of a bootstrap decomposition.
#[derive(Clone, Copy, Debug, PartialEq, Eq, Structural)]
pub struct BrDecompositionParameters {
    pub level: u64,
    pub log2_base: u64,
}

/// Level count and base logarithm of a key-switch decomposition.
#[derive(Clone, Copy, Debug, PartialEq, Eq, Structural)]
pub struct KsDecompositionParameters {
    pub level: u64,
    pub log2_base: u64,
}

/// A secret key: a GLWE key of the given polynomial size and dimension. An
/// LWE key is the GLWE key of dimension 1 whose polynomial size is the LWE
/// dimension.
#[derive(Debug)]
pub struct SecretLweKey {
    pub identifier: u64,
    pub polynomial_size: u64,
    pub glwe_dimension: u64,
    pub description: String,
}

pub struct SecretLweKeyView {
    pub identifier: u64,
    pub polynomial_size: u64,
    pub glwe_dimension: u64,
    pub description: Seq<char>,
}

impl View for SecretLweKey {
    type V = SecretLweKeyView;

    open spec fn view(&self) -> SecretLweKeyView {
        SecretLweKeyView {
            identifier: self.identifier,
            polynomial_size: self.polynomial_size,
            glwe_dimension: self.glwe_dimension,
            description: self.description@,
        }
    }
}

impl Clone for SecretLweKey {
    fn clone(&self) -> (key: SecretLweKey)
        ensures
            key@ == self@,
    {
        SecretLweKey {
            identifier: self.identifier,
            polynomial_size: self.polynomial_size,
            glwe_dimension: self.glwe_dimension,
            description: self.description.clone(),
        }
    }
}

/// The key of a bootstrap, which takes a ciphertext under `input_key` to one
/// under `output_key`.
#[derive(Debug)]
pub struct BootstrapKey {
    pub identifier: u64,
    pub input_key: SecretLweKey,
    pub output_key: SecretLweKey,
    pub br_decomposition_parameter: BrDecompositionParameters,
    pub description: String,
}

pub struct BootstrapKeyView {
    pub identifier: u64,
    pub input_key: SecretLweKeyView,
    pub output_key: SecretLweKeyView,
    pub br_decomposition_parameter: BrDecompositionParameters,
    pub description: Seq<char>,
}

impl View for BootstrapKey {
    type V = BootstrapKeyView;

    open spec fn view(&self) -> BootstrapKeyView {
        BootstrapKeyView {
            identifier: self.identifier,
            input_key: self.input_key@,
            output_key: self.output_key@,
            br_decomposition_parameter: self.br_decomposition_parameter,
            description: self.description@,
        }
    }
}

impl Clone for BootstrapKey {
    fn clone(&self) -> (key: BootstrapKey)
        ensures
            key@ == self@,
    {
        BootstrapKey {
            identifier: self.identifier,
            input_key: self.input_key.clone(),
            output_key: self.output_key.clone(),
            br_decomposition_parameter: self.br_decomposition_parameter,
            description: self.description.clone(),
        }
    }
}

/// The key of a key switch inside a table lookup, from `input_key` to
/// `output_key`.
#[derive(Debug)]
pub struct KeySwitchKey {
    pub identifier: u64,
    pub input_key: SecretLweKey,
    pub output_key: SecretLweKey,
    pub ks_decomposition_parameter: KsDecompositionParameters,
    pub description: String,
}

pub struct KeySwitchKeyView {
    pub identifier: u64,
    pub input_key: SecretLweKeyView,
    pub output_key: SecretLweKeyView,
    pub ks_decomposition_parameter: KsDecompositionParameters,
    pub description: Seq<char>,
}

impl View for KeySwitchKey {
    type V = KeySwitchKeyView;

    open spec fn view(&self) -> KeySwitchKeyView {
        KeySwitchKeyView {
            identifier: self.identifier,
            input_key: self.input_key@,
            output_key: self.output_key@,
            ks_decomposition_parameter: self.ks_decomposition_parameter,
            description: self.description@,
        }
    }
}

impl Clone for KeySwitchKey {
    fn clone(&self) -> (key: KeySwitchKey)
        ensures
            key@ == self@,
    {
        KeySwitchKey {
            identifier: self.identifier,
            input_key: self.input_key.clone(),
            output_key: self.output_key.clone(),
            ks_decomposition_parameter: self.ks_decomposition_parameter,
            description: self.description.clone(),
        }
    }
}

/// The key of a key switch between two parts of a circuit that use different
/// secret keys.
#[derive(Debug)]
pub struct ConversionKeySwitchKey {
    pub identifier: u64,
    pub input_key: SecretLweKey,
    pub output_key: SecretLweKey,
    pub ks_decomposition_parameter: KsDecompositionParameters,
    pub fast_keyswitch: bool,
    pub description: String,
}

pub struct ConversionKeySwitchKeyView {
    pub identifier: u64,
    pub input_key: SecretLweKeyView,
    pub output_key: SecretLweKeyView,
    pub ks_decomposition_parameter: KsDecompositionParameters,
    pub fast_keyswitch: bool,
    pub description: Seq<char>,
}

impl View for ConversionKeySwitchKey {
    type V = ConversionKeySwitchKeyView;

    open spec fn view(&self) -> ConversionKeySwitchKeyView {
        ConversionKeySwitchKeyView {
            identifier: self.identifier,
            input_key: self.input_key@,
            output_key: self.output_key@,
            ks_decomposition_parameter: self.ks_decomposition_parameter,
            fast_keyswitch: self.fast_keyswitch,
            description: self.description@,
        }
    }
}

impl Clone for ConversionKeySwitchKey {
    fn clone(&self) -> (key: ConversionKeySwitchKey)
        ensures
            key@ == self@,
    {
        ConversionKeySwitchKey {
            identifier: self.identifier,
            input_key: self.input_key.clone(),
            output_key: self.output_key.clone(),
            ks_decomposition_parameter: self.ks_decomposition_parameter,
            fast_keyswitch: self.fast_keyswitch,
            description: self.description.clone(),
        }
    }
}

/// The key of a circuit bootstrap, used by table lookups without padding bit.
#[derive(Debug)]
pub struct CircuitBoostrapKey {
    pub identifier: u64,
    pub representation_key: SecretLweKey,
    pub br_decomposition_parameter: BrDecompositionParameters,
    pub description: String,
}

pub struct CircuitBoostrapKeyView {
    pub identifier: u64,
    pub representation_key: SecretLweKeyView,
    pub br_decomposition_parameter: BrDecompositionParameters,
    pub description: Seq<char>,
}

impl View for CircuitBoostrapKey {
    type V = CircuitBoostrapKeyView;

    open spec fn view(&self) -> CircuitBoostrapKeyView {
        CircuitBoostrapKeyView {
            identifier: self.identifier,
            representation_key: self.representation_key@,
            br_decomposition_parameter: self.br_decomposition_parameter,
            description: self.description@,
        }
    }
}

impl Clone for CircuitBoostrapKey {
    fn clone(&self) -> (key: CircuitBoostrapKey)
        ensures
            key@ == self@,
    {
        CircuitBoostrapKey {
            identifier: self.identifier,
            representation_key: self.representation_key.clone(),
            br_decomposition_parameter: self.br_decomposition_parameter,
            description: self.description.clone(),
        }
    }
}

/// The key of a private functional packing, used by table lookups without
/// padding bit.
#[derive(Debug)]
pub struct PrivateFunctionalPackingBoostrapKey {
    pub identifier: u64,
    pub representation_key: SecretLweKey,
    pub br_decomposition_parameter: BrDecompositionParameters,
    pub description: String,
}

pub struct PrivateFunctionalPackingBoostrapKeyView {
    pub identifier: u64,
    pub representation_key: SecretLweKeyView,
    pub br_decomposition_parameter: BrDecompositionParameters,
    pub description: Seq<char>,
}

impl View for PrivateFunctionalPackingBoostrapKey {
    type V = PrivateFunctionalPackingBoostrapKeyView;

    open spec fn view(&self) -> PrivateFunctionalPackingBoostrapKeyView {
        PrivateFunctionalPackingBoostrapKeyView {
            identifier: self.identifier,
            representation_key: self.representation_key@,
            br_decomposition_parameter: self.br_decomposition_parameter,
            description: self.description@,
        }
    }
}

impl Clone for PrivateFunctionalPackingBoostrapKey {
    fn clone(&self) -> (key: PrivateFunctionalPackingBoostrapKey)
        ensures
            key@ == self@,
    {
        PrivateFunctionalPackingBoostrapKey {
            identifier: self.identifier,
            representation_key: self.representation_key.clone(),
            br_decomposition_parameter: self.br_decomposition_parameter,
            description: self.description.clone(),
        }
    }
}

/// All the keys that a circuit uses.
#[derive(Debug)]
pub struct CircuitKeys {
    pub secret_keys: Vec<SecretLweKey>,
    pub keyswitch_keys: Vec<KeySwitchKey>,
    pub bootstrap_keys: Vec<BootstrapKey>,
    pub conversion_keyswitch_keys: Vec<ConversionKeySwitchKey>,
    pub circuit_bootstrap_keys: Vec<CircuitBoostrapKey>,
    pub private_functional_packing_keys: Vec<PrivateFunctionalPackingBoostrapKey>,
}

pub struct CircuitKeysView {
    pub secret_keys: Seq<SecretLweKeyView>,
    pub keyswitch_keys: Seq<KeySwitchKeyView>,
    pub bootstrap_keys: Seq<BootstrapKeyView>,
    pub conversion_keyswitch_keys: Seq<ConversionKeySwitchKeyView>,
    pub circuit_bootstrap_keys: Seq<CircuitBoostrapKeyView>,
    pub private_functional_packing_keys: Seq<PrivateFunctionalPackingBoostrapKeyView>,
}

impl View for CircuitKeys {
    type V = CircuitKeysView;

    open spec fn view(&self) -> CircuitKeysView {
        CircuitKeysView {
            secret_keys: views(self.secret_keys@),
            keyswitch_keys: views(self.keyswitch_keys@),
            bootstrap_keys: views(self.bootstrap_keys@),
            conversion_keyswitch_keys: views(self.conversion_keyswitch_keys@),
            circuit_bootstrap_keys: views(self.circuit_bootstrap_keys@),
            private_functional_packing_keys: views(self.private_functional_packing_keys@),
        }
    }
}

impl CircuitKeysView {
    /// Some secret key has this identifier.
    pub open spec fn has_secret_key(self, id: u64) -> bool {
        exists|i: int| 0 <= i < self.secret_keys.len() && self.secret_keys[i].identifier == id
    }

    /// Some key-switch key has this identifier.
    pub open spec fn has_keyswitch_key(self, id: u64) -> bool {
        exists|i: int|
            0 <= i < self.keyswitch_keys.len() && self.keyswitch_keys[i].identifier == id
    }

    /// Some bootstrap key has this identifier.
    pub open spec fn has_bootstrap_key(self, id: u64) -> bool {
        exists|i: int|
            0 <= i < self.bootstrap_keys.len() && self.bootstrap_keys[i].identifier == id
    }

    /// Some conversion key-switch key has this identifier.
    pub open spec fn has_conversion_keyswitch_key(self, id: u64) -> bool {
        exists|i: int|
            0 <= i < self.conversion_keyswitch_keys.len()
                && self.conversion_keyswitch_keys[i].identifier == id
    }

    /// Some circuit-bootstrap key has this identifier.
    pub open spec fn has_circuit_bootstrap_key(self, id: u64) -> bool {
        exists|i: int|
            0 <= i < self.circuit_bootstrap_keys.len()
                && self.circuit_bootstrap_keys[i].identifier == id
    }

    /// Some private-functional-packing key has this identifier.
    pub open spec fn has_private_functional_packing_key(self, id: u64) -> bool {
        exists|i: int|
            0 <= i < self.private_functional_packing_keys.len()
                && self.private_functional_packing_keys[i].identifier == id
    }
}

impl Clone for CircuitKeys {
    fn clone(&self) -> (keys: CircuitKeys)
        ensures
            keys@ == self@,
    {
        let keys = CircuitKeys {
            secret_keys: self.secret_keys.clone(),
            keyswitch_keys: self.keyswitch_keys.clone(),
            bootstrap_keys: self.bootstrap_keys.clone(),
            conversion_keyswitch_keys: self.conversion_keyswitch_keys.clone(),
            circuit_bootstrap_keys: self.circuit_bootstrap_keys.clone(),
            private_functional_packing_keys: self.private_functional_packing_keys.clone(),
        };
        assert(keys@.secret_keys =~= self@.secret_keys);
        assert(keys@.keyswitch_keys =~= self@.keyswitch_keys);
        assert(keys@.bootstrap_keys =~= self@.bootstrap_keys);
        assert(keys@.conversion_keyswitch_keys =~= self@.conversion_keyswitch_keys);
        assert(keys@.circuit_bootstrap_keys =~= self@.circuit_bootstrap_keys);
        assert(keys@.private_functional_packing_keys =~= self@.private_functional_packing_keys);
        keys
    }
}

/// The keys that one operator uses, each named by its identifier.
#[derive(Debug)]
pub struct InstructionKeys {
    /// The secret key of the operator's input ciphertexts.
    pub input_key: u64,
    /// The key-switch key of its table lookup, or [`NO_KEY`].
    pub tlu_keyswitch_key: u64,
    /// The bootstrap key of its table lookup, or [`NO_KEY`].
    pub tlu_bootstrap_key: u64,
    /// The circuit-bootstrap key of its table lookup, or [`NO_KEY`].
    pub tlu_circuit_bootstrap_key: u64,
    /// The private-functional-packing key of its table lookup, or [`NO_KEY`].
    pub tlu_private_functional_packing_key: u64,
    /// The secret key of the operator's output ciphertext.
    pub output_key: u64,
    /// The conversion key-switch keys applied to its output.
    pub extra_conversion_keys: Vec<u64>,
}

pub struct InstructionKeysView {
    pub input_key: u64,
    pub tlu_keyswitch_key: u64,
    pub tlu_bootstrap_key: u64,
    pub tlu_circuit_bootstrap_key: u64,
    pub tlu_private_functional_packing_key: u64,
    pub output_key: u64,
    pub extra_conversion_keys: Seq<u64>,
}

impl View for InstructionKeys {
    type V = InstructionKeysView;

    open spec fn view(&self) -> InstructionKeysView {
        InstructionKeysView {
            input_key: self.input_key,
            tlu_keyswitch_key: self.tlu_keyswitch_key,
            tlu_bootstrap_key: self.tlu_bootstrap_key,
            tlu_circuit_bootstrap_key: self.tlu_circuit_bootstrap_key,
            tlu_private_functional_packing_key: self.tlu_private_functional_packing_key,
            output_key: self.output_key,
            extra_conversion_keys: self.extra_conversion_keys@,
        }
    }
}

impl InstructionKeysView {
    /// Every slot names a key that `keys` holds: the two secret keys always,
    /// each table-lookup slot unless it is [`NO_KEY`], and each of the extra
    /// conversion keys.
    pub open spec fn bound_within(self, keys: CircuitKeysView) -> bool {
        &&& keys.has_secret_key(self.input_key)
        &&& keys.has_secret_key(self.output_key)
        &&& self.tlu_keyswitch_key != NO_KEY ==> keys.has_keyswitch_key(self.tlu_keyswitch_key)
        &&& self.tlu_bootstrap_key != NO_KEY ==> keys.has_bootstrap_key(self.tlu_bootstrap_key)
        &&& self.tlu_circuit_bootstrap_key != NO_KEY ==> keys.has_circuit_bootstrap_key(
            self.tlu_circuit_bootstrap_key,
        )
        &&& self.tlu_private_functional_packing_key != NO_KEY
            ==> keys.has_private_functional_packing_key(self.tlu_private_functional_packing_key)
        &&& forall|j: int|
            0 <= j < self.extra_conversion_keys.len()
                ==> keys.has_conversion_keyswitch_key(#[trigger] self.extra_conversion_keys[j])
    }
}

impl Clone for InstructionKeys {
    fn clone(&self) -> (keys: InstructionKeys)
        ensures
            keys@ == self@,
    {
        InstructionKeys {
            input_key: self.input_key,
            tlu_keyswitch_key: self.tlu_keyswitch_key,
            tlu_bootstrap_key: self.tlu_bootstrap_key,
            tlu_circuit_bootstrap_key: self.tlu_circuit_bootstrap_key,
            tlu_private_functional_packing_key: self.tlu_private_functional_packing_key,
            output_key: self.output_key,
            extra_conversion_keys: self.extra_conversion_keys.clone(),
        }
    }
}

/// The keys of a circuit, the keys of each of its operators in the order of
/// the operators, and what the optimizer said of the parameters behind them.
#[derive(Debug)]
pub struct CircuitSolution {
    pub circuit_keys: CircuitKeys,
    pub instructions_keys: Vec<InstructionKeys>,
    pub crt_decomposition: Vec<u64>,
    pub complexity: Double,
    pub p_error: Double,
    pub global_p_error: Double,
    pub is_feasible: bool,
    pub error_msg: String,
}

pub struct CircuitSolutionView {
    pub circuit_keys: CircuitKeysView,
    pub instructions_keys: Seq<InstructionKeysView>,
    pub crt_decomposition: Seq<u64>,
    pub complexity: Double,
    pub p_error: Double,
    pub global_p_error: Double,
    pub is_feasible: bool,
    pub error_msg: Seq<char>,
}

impl View for CircuitSolution {
    type V = CircuitSolutionView;

    open spec fn view(&self) -> CircuitSolutionView {
        CircuitSolutionView {
            circuit_keys: self.circuit_keys@,
            instructions_keys: views(self.instructions_keys@),
            crt_decomposition: self.crt_decomposition@,
            complexity: self.complexity,
            p_error: self.p_error,
            global_p_error: self.global_p_error,
            is_feasible: self.is_feasible,
            error_msg: self.error_msg@,
        }
    }
}

impl CircuitSolutionView {
    /// The same solution without its per-operator bindings.
    pub open spec fn short(self) -> CircuitSolutionView {
        CircuitSolutionView { instructions_keys: Seq::empty(), ..self }
    }

    /// Every operator's bindings name keys of this solution.
    pub open spec fn bindings_resolve(self) -> bool {
        forall|i: int|
            0 <= i < self.instructions_keys.len() ==> (#[trigger] self.instructions_keys[i])
                .bound_within(self.circuit_keys)
    }
}

impl Clone for CircuitSolution {
    fn clone(&self) -> (solution: CircuitSolution)
        ensures
            solution@ == self@,
    {
        let solution = CircuitSolution {
            circuit_keys: self.circuit_keys.clone(),
            instructions_keys: self.instructions_keys.clone(),
            crt_decomposition: self.crt_decomposition.clone(),
            complexity: self.complexity,
            p_error: self.p_error,
            global_p_error: self.global_p_error,
            is_feasible: self.is_feasible,
            error_msg: self.error_msg.clone(),
        };
        assert(solution@.instructions_keys =~= self@.instructions_keys);
        solution
    }
}

impl CircuitSolution {
    /// A copy without the per-operator bindings, which may be many: what a
    /// compact log shows.
    pub fn short(&self) -> (solution: CircuitSolution)
        ensures
            solution@ == self@.short(),
    {
        let solution = CircuitSolution {
            circuit_keys: self.circuit_keys.clone(),
            instructions_keys: Vec::new(),
            crt_decomposition: self.crt_decomposition.clone(),
            complexity: self.complexity,
            p_error: self.p_error,
            global_p_error: self.global_p_error,
            is_feasible: self.is_feasible,
            error_msg: self.error_msg.clone(),
        };
        assert(solution@.instructions_keys =~= Seq::<InstructionKeysView>::empty());
        solution
    }
}

} // verus!
