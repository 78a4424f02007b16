//! Scoped, per-thread signal handler bookkeeping.
//!
//! The verified core of a facility that runs a handler for an OS signal only while a
//! given unit of work runs. It holds the per-signal handler table, the decision made by
//! the trampoline that the OS invokes, and the install/restore discipline of a scope.
pub mod dispatch;
pub mod laws;
pub mod scope;
pub mod table;
