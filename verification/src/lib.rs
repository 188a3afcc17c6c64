//! Garbling half of Yao's garbled-circuit protocol: deterministic wire-label
//! derivation and per-gate encrypted truth tables with the point-and-permute
//! layout. Hash and PRF primitives are consumed through abstract contracts;
//! the label algebra is a trait with a verified fixed-width implementation.

pub mod bit;
pub mod crypto_primitives;
pub mod garble;

pub use bit::{and_bits, not_bits, or_bits, xor_bits, Bit, BitString, Bits, BoolBit};
pub use crypto_primitives::{HashFn, HashFnError, PRFError, PRF};
pub use garble::{
    lemma_color_bit_invariant, lemma_derive_deterministic, lemma_gate_correctness,
    lemma_truth_tables, truth_table, EncodedGate, EncodedWire, Garbler, Gate, GateType,
    YaoGCError,
};
