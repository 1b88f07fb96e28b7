//! Transaction-execution core for a blockchain trading agent.
//!
//! The crate owns a pool of signing wallets and a pool of RPC endpoint
//! handles, and offers the three stages of a swap pipeline — simulate,
//! pre-sign, submit — as independently callable operations. Network
//! transport stays outside: callers hand in the values a network read
//! produced (a queried balance, a recent anchor value, the outcome of a
//! send attempt) and the core decides what follows from them.

pub mod errors;
pub mod endpoints;
pub mod executor;
pub mod pipeline;
pub mod solana;
pub mod wallets;

pub use errors::ExecError;
pub use endpoints::EndpointPool;
pub use executor::{SignedTransaction, SolExecutor};
pub use pipeline::{FillData, SendOutcome, SimResult, SubmitResult, SubmitStep, SwapIntent};
pub use wallets::{Wallet, WalletPool};
