//! Submission engine for flashloan arbitrage transactions.
//!
//! An upstream collaborator hands the engine a fully-formed [`ExecutionPlan`];
//! the engine validates it, builds the transaction against the live chain
//! nonce, and tracks it through a submission state machine bounded by the
//! plan's deadline, finally reporting a single [`ExecutionResult`]. Network
//! and signing work is performed by the caller between steps of the machine;
//! the engine decides every transition.

pub mod builder;
pub mod calldata;
pub mod decimal;
pub mod flight;
pub mod machine;
pub mod plan;
pub mod text;

pub use builder::Provider;
pub use builder::SignedTransaction;
pub use builder::UnsignedTransaction;
pub use builder::build;
pub use flight::FlightTable;
pub use machine::Machine;
pub use machine::NodeError;
pub use machine::Phase;
pub use machine::Receipt;
pub use machine::backoff_ms;
pub use plan::ExecError;
pub use plan::ExecutionPlan;
pub use plan::ExecutionResult;
