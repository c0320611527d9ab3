//! Shapes of what the service sends.

pub mod response;
