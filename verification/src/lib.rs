//! Runner reservation and timeout watchdog for a continuous-integration
//! workflow: picks a self-hosted or vendor-hosted runner for a workload and
//! later cancels the run if the reserved runner never attached.

pub mod command;
pub mod errors;
pub mod identifier;
pub mod results;
pub mod selector;
pub mod text;
pub mod watchdog;

pub use errors::CiError;
