//! Onboard controller of a small ground robot: value types, drivers over
//! hardware capability traits, the behaviour-script supervisor and the
//! request/response protocol that the script speaks.
pub mod models;
pub mod api;
pub mod io;
pub mod drivers;
pub mod controllers;
pub mod apipy;
pub mod config;
