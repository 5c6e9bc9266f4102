//! The pair of text and JSON value.

use crate::failure::{rendering_of, SerializationFailure};
use crate::json::{
    clone_value, compact_text, pretty_text, same_json, serialize_compact, serialize_pretty,
    values_equal,
};
use vstd::pervasive::unreached;
use vstd::prelude::*;
use vstd::std_specs::cmp::PartialEqSpec;

verus! {

/// Text for people and a JSON value for programs, held side by side.
///
/// The two are independent: nothing ties what the text says to what the
/// value holds. Neither can be changed after construction.
#[derive(Debug, Default)]
pub struct StructuredOutput {
    lines: String,
    json: serde_json::Value,
}

impl StructuredOutput {
    /// The text, as a sequence of characters.
    pub closed spec fn text(&self) -> Seq<char> {
        self.lines@
    }

    /// The JSON value.
    pub closed spec fn structured(&self) -> serde_json::Value {
        self.json
    }

    /// Whether this output pairs exactly `text` with `json`.
    pub open spec fn holds(&self, text: Seq<char>, json: serde_json::Value) -> bool {
        self.text() == text && self.structured() == json
    }

    /// Pairs a copy of `lines` with `json`. Every text and every value is
    /// accepted.
    pub fn new(lines: &str, json: serde_json::Value) -> (output: StructuredOutput)
        ensures
            output.holds(lines@, json),
    {
        StructuredOutput { lines: lines.to_owned(), json }
    }

    /// Pairs `lines` with `json` without copying the text.
    pub fn from_string(lines: String, json: serde_json::Value) -> (output: StructuredOutput)
        ensures
            output.holds(lines@, json),
    {
        StructuredOutput { lines, json }
    }

    /// The text.
    pub fn lines(&self) -> (lines: &str)
        ensures
            lines@ == self.text(),
    {
        self.lines.as_str()
    }

    /// The JSON value.
    pub fn json(&self) -> (json: &serde_json::Value)
        ensures
            *json == self.structured(),
    {
        &self.json
    }

    /// What the output shows when printed: the text, unchanged, and
    /// nothing of the JSON value.
    pub fn to_string(&self) -> (shown: String)
        ensures
            shown@ == self.text(),
    {
        self.lines.clone()
    }

    /// The JSON value as compact JSON text, or the failure that the
    /// serializer reported.
    pub fn try_to_json_string(&self) -> (rendering: Result<String, SerializationFailure>)
        ensures
            match rendering {
                Ok(text) => compact_text(self.structured()) == Some(text@),
                Err(_) => compact_text(self.structured()) is None,
            },
    {
        rendering_of(serialize_compact(&self.json))
    }

    /// The JSON value as indented JSON text, or the failure that the
    /// serializer reported.
    pub fn try_to_json_pretty(&self) -> (rendering: Result<String, SerializationFailure>)
        ensures
            match rendering {
                Ok(text) => pretty_text(self.structured()) == Some(text@),
                Err(_) => pretty_text(self.structured()) is None,
            },
    {
        rendering_of(serialize_pretty(&self.json))
    }

    /// The JSON value as compact JSON text, for a value that the
    /// serializer can write.
    pub fn to_json_string(&self) -> (text: String)
        requires
            compact_text(self.structured()) is Some,
        ensures
            compact_text(self.structured()) == Some(text@),
    {
        match self.try_to_json_string() {
            Ok(text) => text,
            Err(_) => unreached(),
        }
    }

    /// The JSON value as indented JSON text, for a value that the
    /// serializer can write.
    pub fn to_json_pretty(&self) -> (text: String)
        requires
            pretty_text(self.structured()) is Some,
        ensures
            pretty_text(self.structured()) == Some(text@),
    {
        match self.try_to_json_pretty() {
            Ok(text) => text,
            Err(_) => unreached(),
        }
    }

    /// An output built from a text and a value hands back that text and
    /// that value.
    pub proof fn lemma_parts_are_kept(self, text: Seq<char>, json: serde_json::Value)
        requires
            self.holds(text, json),
        ensures
            self.text() == text,
            self.structured() == json,
    {
    }

    /// Two outputs are equal exactly when their texts are the same and
    /// their JSON values are equal.
    pub proof fn lemma_equal_iff_parts_equal(
        self,
        other: StructuredOutput,
        text: Seq<char>,
        json: serde_json::Value,
        other_text: Seq<char>,
        other_json: serde_json::Value,
    )
        requires
            self.holds(text, json),
            other.holds(other_text, other_json),
        ensures
            self.eq_spec(&other) <==> (text == other_text && same_json(json, other_json)),
    {
    }
}

impl PartialEq for StructuredOutput {
    fn eq(&self, other: &StructuredOutput) -> (equal: bool) {
        self.lines == other.lines && values_equal(&self.json, &other.json)
    }
}

impl vstd::std_specs::cmp::PartialEqSpecImpl for StructuredOutput {
    open spec fn obeys_eq_spec() -> bool {
        true
    }

    open spec fn eq_spec(&self, other: &StructuredOutput) -> bool {
        self.text() == other.text() && same_json(self.structured(), other.structured())
    }
}

impl Clone for StructuredOutput {
    /// An independent copy: it shares nothing with `self` and holds the
    /// same text and the same value.
    fn clone(&self) -> (copy: StructuredOutput)
        ensures
            copy == *self,
    {
        StructuredOutput { lines: self.lines.clone(), json: clone_value(&self.json) }
    }
}

} // verus!
