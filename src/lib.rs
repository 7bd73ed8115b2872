//! Fixture translation, execution-context synthesis and the effects oracle of
//! an instruction-replay harness for a program runtime.
//!
//! Recorded fixtures arrive as plain wire messages; they are validated once,
//! into the context and effects models, and every later stage relies on the
//! invariants established there.

pub mod abi;
pub mod account;
pub mod address;
pub mod context;
pub mod effects;
pub mod error;
pub mod fixture;
pub mod instruction;
pub mod oracle;
pub mod registry;
pub mod sdk;
pub mod synthesis;
pub mod sysvars;

pub use account::{AccountState, AccountView, WireAccount};
pub use address::Address;
pub use error::FixtureError;
