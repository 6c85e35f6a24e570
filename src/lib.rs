//! Orchestration core of a simulated sortition testnet, together with the
//! option and response natives of its contract language.

pub mod errors;
pub mod options;
pub mod run_loop;
pub mod types;
