//! Health tracking and recovery orchestration for a GPU device that can be
//! lost mid-session or invalidated by a suspend/resume cycle.
//!
//! The crate is a pure decision core: it classifies the outcome of
//! synchronization waits, tracks device liveness across power notifications,
//! decides once per frame whether rendering may proceed, and plans the work
//! that has to happen around a destructive device recreation. The device and
//! the host application are reached through two small traits, of which
//! nothing is assumed; all code is verified with Verus.

pub mod error;
pub mod wait;
pub mod lifecycle;
pub mod device;
pub mod recovery;
pub mod theorems;
