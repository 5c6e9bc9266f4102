//! The one way a rendering can fail.

use vstd::prelude::*;

verus! {

/// The serializer could not write the JSON value as text.
#[derive(Debug)]
pub struct SerializationFailure {
    /// What `serde_json` reported.
    pub cause: serde_json::Error,
}

/// Turns the serializer's outcome into the crate's own: the text as it
/// came, or the serializer's error kept as the cause of a
/// [`SerializationFailure`].
pub fn rendering_of(outcome: Result<String, serde_json::Error>) -> (rendering: Result<
    String,
    SerializationFailure,
>)
    ensures
        rendering == match outcome {
            Ok(text) => Ok::<String, SerializationFailure>(text),
            Err(cause) => Err::<String, SerializationFailure>(SerializationFailure { cause }),
        },
{
    match outcome {
        Ok(text) => Ok(text),
        Err(cause) => Err(SerializationFailure { cause }),
    }
}

} // verus!
