//! Decoder configuration and the decisions taken around each decoding step.

pub mod options;

pub use options::Options;
