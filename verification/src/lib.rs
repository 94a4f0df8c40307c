//! A minimal asynchronous request/response transport built on a bounded
//! ring buffer pair, together with the operation-tracking layer that turns
//! enqueued requests into resolvable operation handles.
//!
//! Three layers, bottom-up:
//! - [`uring`]: the ring transport — a fixed-capacity, power-of-two circular
//!   buffer pair moving opaque entries between exactly two endpoints;
//! - [`driver`]: the operation driver — an indexed pool of in-flight
//!   operation records bridging "a reply arrived" to "resume the waiting
//!   caller";
//! - [`op`]: the operation handle — a typed, owning handle bound to one
//!   operation identifier, resolved or cancelled exactly once, with
//!   [`lifecycle`] proving that exactly-once discipline over the record's
//!   whole life.
//!
//! [`queue`] holds a standalone bounded queue, [`proto`] the two concrete
//! operations (ping and exit) that exercise the stack end-to-end, and
//! [`kernel`] the supervisor-mode helpers that ship beside the transport.

pub mod driver;
pub mod kernel;
pub mod lifecycle;
pub mod op;
pub mod proto;
pub mod queue;
pub mod uring;
