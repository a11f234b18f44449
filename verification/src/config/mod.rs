//! What the program is configured with, and what it says about itself.

pub mod app;
pub mod file;
pub mod model;
