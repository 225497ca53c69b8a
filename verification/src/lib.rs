//! Worker lifecycle and supervision: keys workers by a content fingerprint,
//! tracks live workers in a pool registry, and enforces wall-clock, CPU-burst
//! and memory budgets on each worker through a supervisor state machine.

pub mod events;
pub mod fingerprint;
pub mod host;
pub mod limits;
pub mod pool;
pub mod supervisor;
pub mod transport;
