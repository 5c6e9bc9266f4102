//! Output for command line tools that is held twice: as text for people and
//! as a JSON value for programs.
//!
//! [`StructuredOutput`] pairs the two views. The text is handed back as it
//! was given; the JSON value is rendered by `serde_json`, compactly or
//! indented.

pub mod failure;
pub mod json;
pub mod output;

pub use crate::failure::{rendering_of, SerializationFailure};
pub use crate::output::StructuredOutput;
