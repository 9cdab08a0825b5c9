//! Deferred "critical increment" notifications for tracked objects.
//!
//! A notification is reserved before any lock is taken (`CritIncrWrapper::new`),
//! filled in while the tracked object's lock is held (`push_crit_incr`, through
//! `CritIncrWrapper::init`), and later delivered by a reader thread, which clears the
//! object's guard flags and hands over to the object's own locked work routine.
pub mod node;
pub mod seq_file;
pub mod wrapper;
