//! Core of an event-driven terminal application: an ordered multi-producer /
//! single-consumer event bus, cancellable background producers, a modal popup
//! overlay with a selectable action menu, and the controller that dispatches
//! events to either the active popup or the current screen's key bindings.

pub mod action_menu;
pub mod app;
pub mod bus;
pub mod event;
pub mod event_loop;
pub mod popup;
pub mod producer;
