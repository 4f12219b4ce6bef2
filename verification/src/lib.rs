//! The validation and state-transition core of a shielded pool: every action
//! of a transaction is checked by itself, then against the committed state,
//! and then executed into a write buffer that is committed as a whole or not
//! at all. A nullifier can be spent once; the event log says so exactly as
//! often. Beside the core stand the options of the command-line client and
//! the plan of the schema code generation.

pub mod action;
pub mod codegen;
pub mod error;
pub mod event;
pub mod groth16;
pub mod laws;
pub mod nullifier;
pub mod opt;
pub mod records;
pub mod signature;
pub mod spend;
pub mod statement;
pub mod store;
pub mod transaction;
