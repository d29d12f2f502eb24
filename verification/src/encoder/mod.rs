//! Encoder configuration and the decisions taken around each encoding step.

pub mod options;

pub use options::Options;
