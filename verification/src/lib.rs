//! A single-slot task lifecycle controller for a proof-compute offload server.
//!
//! A client claims the machine (`lock_server_if_free`), submits one task
//! (`do_task`), polls for the result (`get_task_result`), and releases the
//! slot (`unlock`). The slot is recycled by timeouts when a client
//! disappears. All timing decisions are taken against a monotonic timestamp
//! (in milliseconds) handed in by the caller at operation entry.

pub mod error;
pub mod guarantees;
pub mod rpc;
pub mod server;
pub mod status;
pub mod tasks;
