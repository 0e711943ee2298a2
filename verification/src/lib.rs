//! A small project-manager library: projects own ordered to-do lists,
//! each task has a description and a completion flag, the application
//! state machine decides when the event loop stops, and each screen's
//! content is a pure function of the state.

pub mod state;
pub mod todo;
pub mod view;
