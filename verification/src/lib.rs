//! Blocking TCP operations with time-outs and cancellation, emulated over
//! non-blocking sockets: the decisions and the bookkeeping of every
//! operation, verified.
pub mod buffer;
pub mod error;
pub mod flag;
pub mod lazy_cell;
pub mod time;
pub mod token;
pub mod transfer;
pub mod wait;

pub use buffer::BufferManager;
pub use error::{IoErrorKind, IoFailure, TcpError};
pub use flag::{always, manager_cancelled, manager_restart, CancelFlag};
pub use lazy_cell::LazyCell;
pub use time::{TimeSpan, Timeout, set_up_timeout, compute_remaining_time};
pub use token::{TokenCounter, SHUTDOWN_TOKEN};
pub use transfer::{
    compute_capacity, round_up, ReadAll, ReadAllAction, ReadAllPhase, WriteAll, WriteAllAction,
};
pub use wait::{pending_socket_error, refuse_if_cancelled, WaitAction, WaitPhase, Waiter};
