//! The execution-context core of an actor runtime.
//!
//! A [`scope::Scope`] says who is executing: the actor's address, its group,
//! its static metadata, the trace it works for and the handles to the policy
//! shared by its group. An [`scope::Ambient`] registry holds the scope that is
//! installed around the current unit of work. A [`stream::Stream`] adapts one
//! replaceable, closeable outside sequence to the receive loop.

pub mod addr;
pub mod envelope;
mod lock;
pub mod object;
pub mod permissions;
pub mod rate_limiter;
pub mod scope;
pub mod stream;
pub mod trace_id;
