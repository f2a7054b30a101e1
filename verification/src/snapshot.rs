//! The textual form in which a state value is kept on disk.

use vstd::prelude::*;

verus! {

/// A value that can be written out as text and read back from text.
///
/// The store keeps one such value and replaces the whole text each time the
/// value has been changed. What the text of a value is, and which texts are
/// well-formed, is for each type to say: the store goes by what `encode` and
/// `decode` return.
pub trait Snapshot: Sized {
    /// Writes the value out, or says why it cannot be written out.
    fn encode(&self) -> Result<String, String>;

    /// Reads a value back, or says why the text is malformed.
    fn decode(text: &str) -> Result<Self, String>;
}

/// Whether `outcome` is what writing `value` out may end with.
pub open spec fn encoded_as<T: Snapshot>(value: T, outcome: Result<String, String>) -> bool {
    call_ensures(T::encode, (&value,), outcome)
}

/// Whether `outcome` is what reading a value of `T` back from `text` may
/// end with.
pub open spec fn decoded_as<T: Snapshot>(text: &str, outcome: Result<T, String>) -> bool {
    call_ensures(T::decode, (text,), outcome)
}

/// The error type of `serde_json`, carried through unopened.
#[verifier::external_type_specification]
#[verifier::external_body]
pub struct ExJsonError(serde_json::Error);

/// The JSON text that `serde_json::to_string` produces for a `u32`, or `None`
/// where it reports an error.
pub uninterp spec fn json_of_u32(value: u32) -> Option<Seq<char>>;

/// The `u32` that `serde_json::from_str` reads from a text, or `None` where
/// it reports an error.
pub uninterp spec fn u32_of_json(text: Seq<char>) -> Option<u32>;

/// Calls `serde_json::to_string` on a `u32`. Nothing is claimed of the text
/// but that it depends on the number alone.
#[verifier::external_body]
fn u32_to_json(value: &u32) -> (text: Result<String, serde_json::Error>)
    ensures
        match text {
            Ok(t) => json_of_u32(*value) == Some(t@),
            Err(_) => json_of_u32(*value) is None,
        },
{
    serde_json::to_string(value)
}

/// Calls `serde_json::from_str` for a `u32`. Nothing is claimed of the number
/// but that it depends on the text alone.
#[verifier::external_body]
fn u32_from_json(text: &str) -> (value: Result<u32, serde_json::Error>)
    ensures
        match value {
            Ok(v) => u32_of_json(text@) == Some(v),
            Err(_) => u32_of_json(text@) is None,
        },
{
    serde_json::from_str(text)
}

/// Renders a `serde_json` error through its `Display` impl. Nothing is
/// claimed of the text.
#[verifier::external_body]
fn json_error_text(error: &serde_json::Error) -> (text: String) {
    error.to_string()
}

/// A `u32` is kept as its JSON text.
impl Snapshot for u32 {
    fn encode(&self) -> (text: Result<String, String>)
        ensures
            match text {
                Ok(t) => json_of_u32(*self) == Some(t@),
                Err(_) => json_of_u32(*self) is None,
            },
    {
        match u32_to_json(self) {
            Ok(t) => Ok(t),
            Err(e) => Err(json_error_text(&e)),
        }
    }

    fn decode(text: &str) -> (value: Result<u32, String>)
        ensures
            match value {
                Ok(v) => u32_of_json(text@) == Some(v),
                Err(_) => u32_of_json(text@) is None,
            },
    {
        match u32_from_json(text) {
            Ok(v) => Ok(v),
            Err(e) => Err(json_error_text(&e)),
        }
    }
}

} // verus!
