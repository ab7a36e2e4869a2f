//! A time-locked payment release engine: release schedules, acceleration
//! curves, pause accounting, withdrawal bookkeeping and account lifecycles.
pub mod constants;
pub mod curve;
pub mod errors;
pub mod escrow;
pub mod escrow_ops;
pub mod keys;
pub mod laws;
pub mod stream;
pub mod stream_ops;
pub mod strategies;
pub mod utils;
