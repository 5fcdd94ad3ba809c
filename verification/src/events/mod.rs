//! Events, where they come from, and the loop that hands them to listeners.

pub mod cevent;
pub mod event;
pub mod event_loop;
pub mod event_provider;
pub mod input;
