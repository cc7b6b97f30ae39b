//! Circuit representation and key derivation for homomorphic-encryption
//! computation graphs.
//!
//! A [`dag::Dag`] is an arena of operators, cut into named circuits that may
//! be composed with one another. The parameters that an optimizer picks for
//! such a graph arrive as a [`solution::Solution`] or a
//! [`solution::SoloKeySolution`] and are brought into one canonical form, the
//! [`solution::DagSolution`]. From it [`compile::convert_to_circuit_solution`]
//! derives the secret keys, the key-switch and bootstrap keys, and the table
//! that binds every operator to the keys it uses.
//!
//! The optimizer itself is outside this library: [`optimize`] holds the steps
//! before and after its search, and [`options`] what is handed to it.
pub mod compile;
pub mod convert;
pub mod dag;
pub mod double;
pub mod keys;
pub mod location;
pub mod operator;
pub mod optimize;
pub mod options;
pub mod select;
pub mod solution;
