//! What a request body must be before an endpoint reads it: not empty,
//! JSON, and of the kind the endpoint expects.  The body's bytes are
//! checked here; whether they are JSON, and of which kind, is what the
//! JSON reader made of them.
use vstd::prelude::*;

verus! {

/// The kind of a JSON value.
#[derive(Clone, Copy, Debug, PartialEq, Eq, Structural)]
pub enum JsonShape {
    Object,
    Array,
    Text,
    Other,
}

/// Why a body is refused (each answered 400).
#[derive(Clone, Copy, Debug, PartialEq, Eq, Structural)]
pub enum BodyError {
    /// The body is empty.
    Required,
    /// The body is not JSON.
    NotJson,
    /// The body is JSON but not an object.
    NotObject,
    /// The body is JSON but not an array.
    NotArray,
}

/// The outcome for a body that must hold a JSON value of kind `want`,
/// given its length and what the JSON reader made of it (`None` when it
/// is not JSON).
pub open spec fn required_body_of(len: nat, shape: Option<JsonShape>, want: JsonShape) -> Result<(), BodyError> {
    if len == 0 {
        Err(BodyError::Required)
    } else {
        match shape {
            None => Err(BodyError::NotJson),
            Some(s) => if s == want {
                Ok(())
            } else if want == JsonShape::Array {
                Err(BodyError::NotArray)
            } else {
                Err(BodyError::NotObject)
            },
        }
    }
}

/// Checks a body that must be a JSON object.
pub fn object_body_check(body: &[u8], shape: Option<JsonShape>) -> (r: Result<(), BodyError>)
    ensures
        r == required_body_of(body@.len(), shape, JsonShape::Object),
{
    if body.len() == 0 {
        Err(BodyError::Required)
    } else {
        match shape {
            None => Err(BodyError::NotJson),
            Some(JsonShape::Object) => Ok(()),
            Some(_) => Err(BodyError::NotObject),
        }
    }
}

/// Checks a body that must be a JSON array.
pub fn array_body_check(body: &[u8], shape: Option<JsonShape>) -> (r: Result<(), BodyError>)
    ensures
        r == required_body_of(body@.len(), shape, JsonShape::Array),
{
    if body.len() == 0 {
        Err(BodyError::Required)
    } else {
        match shape {
            None => Err(BodyError::NotJson),
            Some(JsonShape::Array) => Ok(()),
            Some(_) => Err(BodyError::NotArray),
        }
    }
}

/// The outcome for a body that may be left out but, when given, must be
/// a JSON object: `Ok(false)` for an empty body, `Ok(true)` for an object.
pub open spec fn optional_object_of(len: nat, shape: Option<JsonShape>) -> Result<bool, BodyError> {
    if len == 0 {
        Ok(false)
    } else {
        match shape {
            None => Err(BodyError::NotJson),
            Some(JsonShape::Object) => Ok(true),
            Some(_) => Err(BodyError::NotObject),
        }
    }
}

/// Checks a body that may be left out and is otherwise a JSON object;
/// the result says whether a body was given.
pub fn optional_object_check(body: &[u8], shape: Option<JsonShape>) -> (r: Result<bool, BodyError>)
    ensures
        r == optional_object_of(body@.len(), shape),
{
    if body.len() == 0 {
        Ok(false)
    } else {
        match shape {
            None => Err(BodyError::NotJson),
            Some(JsonShape::Object) => Ok(true),
            Some(_) => Err(BodyError::NotObject),
        }
    }
}

/// The message that answers a refused body.
pub open spec fn body_error_text(e: BodyError) -> Seq<char> {
    match e {
        BodyError::Required => "request body is required"@,
        BodyError::NotJson => "parse request body"@,
        BodyError::NotObject => "request body must be an object"@,
        BodyError::NotArray => "request body must be an array"@,
    }
}

/// The message that answers a refused body.
pub fn body_error_message(e: BodyError) -> (r: &'static str)
    ensures
        r@ == body_error_text(e),
{
    match e {
        BodyError::Required => "request body is required",
        BodyError::NotJson => "parse request body",
        BodyError::NotObject => "request body must be an object",
        BodyError::NotArray => "request body must be an array",
    }
}

} // verus!
