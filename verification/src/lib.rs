pub mod action;
pub mod application;
pub mod client;
pub mod config;
pub mod event;
pub mod laws;
pub mod program;
pub mod run;
pub mod scale;
pub mod surface_state;
pub mod volume;
