//! A fixed-size worker pool, modelled and verified.
//!
//! The pool itself is a piece of concurrent plumbing: worker threads racing on
//! a shared channel. What is verified here is the coordination logic that the
//! plumbing must follow: how a pool is built, how submitted jobs move through
//! the queue to the workers, and how teardown drains the queue and stops every
//! worker. The `pool` module holds that model; the `handler` module holds the
//! request-routing and response-framing rules of the connection handler the
//! pool is demonstrated with.

pub mod handler;
pub mod pool;
