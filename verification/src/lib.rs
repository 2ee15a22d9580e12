//! A small feed-forward neural network trainer built on a dense matrix type.
//!
//! Every scalar is an IEEE-754 double carried as its 64-bit pattern; the
//! arithmetic on those patterns is delegated to bit-exact software
//! floating-point routines behind a small trusted boundary, while all
//! structure — shapes, layer bookkeeping, the propagation and training
//! algorithms — is verified.

pub mod activation;
pub mod error;
pub mod matrix;
pub mod network;
pub mod scalar;
