//! Synchronisation core of a coroutine runtime, as verified state machines.
//!
//! Every shared record of the runtime is a plain value here, and every
//! operation on it is one atomic step taken through `&mut`. A step never
//! blocks and never wakes anyone: it returns what the caller has to do next
//! (park, unpark a handle, reschedule a coroutine, try the system call).
//! The races that the protocols close are stated over explicit interleavings
//! of these steps and proved for all of them.

pub mod slot;
pub mod option_cell;
pub mod io_context;
pub mod handle;
pub mod delay_drop;
pub mod io_data;
pub mod accept;
pub mod join;
pub mod join_race;
pub mod io_race;
