//! Core of a real-time epidemic simulation service.
//!
//! A client opens a duplex connection, submits one request with the model
//! parameters and initial compartment populations, and receives back a time
//! series of compartment populations. This crate holds the verified core of
//! that service:
//!
//! - [`session`]: the per-connection lifecycle and heartbeat state machine,
//!   a pure transition function from state and inbound event to next state
//!   and outbound action;
//! - [`encode`]: the response encoders, which turn a trajectory of
//!   decimal-formatted samples into the response payload and build the
//!   structured error envelope, with the output text pinned down exactly.
//!
//! Floating-point work (the SEIR derivative and the adaptive integration)
//! lives outside the verified core; it hands its samples here as their
//! decimal string forms.

pub mod encode;
pub mod session;
