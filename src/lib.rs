//! A time-locked escrow: a vault that pays its balance above the reserve to the
//! lock's creator once the unlock time has passed. Lock and vault live at
//! program-derived addresses of the subject key (the mint).
pub mod address;
pub mod timelock;

pub use address::{Address, Role};
pub use timelock::{initialize_lock, withdraw, InitializeLock, LockAccount, TimelockError, Withdraw};
