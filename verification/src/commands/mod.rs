//! The commands that the front end can invoke.

pub mod general;
