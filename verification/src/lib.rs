//! Driver of a PBFT consensus engine in the process of a validator.
//!
//! - [`engine`]: the event loop as a state machine. It decides, event by
//!   event, which node operation to call, what to log, when to poll the two
//!   tickers and when the consensus state is to be made durable.
//! - [`timing`]: the ticker that says whether a periodic action is due.
//! - [`storage`]: the stores that hold the consensus state and lend it out
//!   under read and write guards, one kept in a file and one in memory only.
//! - [`snapshot`]: the text that a state value is kept as.
//!
//! Nothing here waits, reads a clock or touches a file: what comes from
//! outside is handed in, and what is to happen outside is handed back.

pub mod engine;
pub mod snapshot;
pub mod storage;
pub mod timing;
