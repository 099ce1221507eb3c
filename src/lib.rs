//! In-place construction of values whose size is known only at run time.
//!
//! A producer hands back a [`deferred::Deferred`] constructor that reports the
//! layout of the value it will build; the consumer tries to place it in a
//! storage region it already owns and escalates to larger storage on
//! rejection. Rejection never runs the construction routine and hands the
//! constructor back untouched.
pub mod buffer;
pub mod deferred;
pub mod layout;
pub mod routines;
