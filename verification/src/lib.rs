//! Mock runtimes for pallet tests: the contract runtime with delegated
//! dispatch ("doughnut") verification, and the test runtime of the Aura
//! consensus pallet.
//!
//! The runtime's moving parts (the externalities builder, the associated
//! fee constants, contract address and child-trie id derivation, the
//! doughnut verifier) are modelled on plain values and verified.

pub mod params;
pub mod aura_mock;
pub mod fees;
pub mod ext_builder;
pub mod doughnut;
pub mod contracts_mock;
pub mod code_hash;
pub mod runtime_interface;
