//! A desktop browser shell around an embedded rendering engine: the state
//! of windows and tabs, the adapter that queues commands for the engine and
//! collects its reports, and the event loop that reconciles the two.

pub mod app;
pub mod chrome;
pub mod geometry;
pub mod input;
pub mod location;
pub mod servo;
pub mod shell;
pub mod state;
pub mod view;
pub mod window;
