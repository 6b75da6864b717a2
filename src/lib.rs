//! The coordination core of a window-management daemon: a reconciliation store of running
//! applications and their windows, the reactor's handlers that fold lifecycle and discovery
//! events into it, a one-shot query protocol with a bounded wait, and the decisions of the
//! mission-control overlay controller.

pub mod app_events;
pub mod laws;
pub mod mission_control;
pub mod model;
pub mod query;
pub mod reactor;
