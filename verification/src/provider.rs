//! How a request body names an identity provider: either as a bare string,
//! the provider's alias, or as an object that gives the alias, or else the
//! provider's id.
use vstd::prelude::*;

verus! {

/// What a request body holds, as far as naming a provider goes.
pub enum ReferenceBody {
    /// a string
    Text(String),
    /// an object: its `alias` when that is a string; its `id` member when
    /// present (`Some(None)` when present but not a string); its
    /// `internalId` when that is a string
    Object { alias: Option<String>, id: Option<Option<String>>, internal_id: Option<String> },
    /// anything else
    Other,
}

/// Why a body names no provider.
#[derive(Clone, Copy, Debug, PartialEq, Eq, Structural)]
pub enum ReferenceError {
    /// an object with neither an alias nor an id
    MissingName,
    /// neither a string nor an object
    WrongShape,
    /// an empty body
    BodyRequired,
    /// a body that is not JSON
    NotJson,
}

/// The abstract value of a body.
pub enum ReferenceView {
    Text(Seq<char>),
    Object(Option<Seq<char>>, Option<Option<Seq<char>>>, Option<Seq<char>>),
    Other,
}

pub open spec fn opt_text(o: Option<String>) -> Option<Seq<char>> {
    match o {
        Some(s) => Some(s@),
        None => None,
    }
}

pub open spec fn reference_view(b: ReferenceBody) -> ReferenceView {
    match b {
        ReferenceBody::Text(s) => ReferenceView::Text(s@),
        ReferenceBody::Object { alias, id, internal_id } => ReferenceView::Object(
            opt_text(alias),
            match id {
                Some(v) => Some(opt_text(v)),
                None => None,
            },
            opt_text(internal_id),
        ),
        ReferenceBody::Other => ReferenceView::Other,
    }
}

/// The name a body gives: a string names the provider itself; an object
/// names it by its alias, or else by its `id` member, or, when it has no
/// `id` member at all, by its `internalId`.
pub open spec fn reference_of(b: ReferenceView) -> Result<Seq<char>, ReferenceError> {
    match b {
        ReferenceView::Text(s) => Ok(s),
        ReferenceView::Object(alias, id, internal_id) => match alias {
            Some(a) => Ok(a),
            None => {
                let named = match id {
                    Some(v) => v,
                    None => internal_id,
                };
                match named {
                    Some(n) => Ok(n),
                    None => Err(ReferenceError::MissingName),
                }
            },
        },
        ReferenceView::Other => Err(ReferenceError::WrongShape),
    }
}

/// The abstract value of a result.
pub open spec fn reference_result_view(r: Result<String, ReferenceError>) -> Result<Seq<char>, ReferenceError> {
    match r {
        Ok(s) => Ok(s@),
        Err(e) => Err(e),
    }
}

/// The name a body gives to an identity provider.
pub fn provider_reference(body: ReferenceBody) -> (r: Result<String, ReferenceError>)
    ensures
        reference_result_view(r) == reference_of(reference_view(body)),
{
    match body {
        ReferenceBody::Text(s) => Ok(s),
        ReferenceBody::Object { alias, id, internal_id } => match alias {
            Some(a) => Ok(a),
            None => {
                let named = match id {
                    Some(v) => v,
                    None => internal_id,
                };
                match named {
                    Some(n) => Ok(n),
                    None => Err(ReferenceError::MissingName),
                }
            },
        },
        ReferenceBody::Other => Err(ReferenceError::WrongShape),
    }
}

/// The name that a request body gives to an identity provider, given the
/// body's bytes and what the JSON reader made of them (`None` when they
/// are not JSON): an empty body is refused first, then one that is not
/// JSON; any other body names the provider as `reference_of` says.
pub open spec fn body_reference_of(len: nat, parsed: Option<ReferenceView>) -> Result<Seq<char>, ReferenceError> {
    if len == 0 {
        Err(ReferenceError::BodyRequired)
    } else {
        match parsed {
            None => Err(ReferenceError::NotJson),
            Some(b) => reference_of(b),
        }
    }
}

/// The name that a request body gives to an identity provider.
pub fn provider_reference_of_body(body: &[u8], parsed: Option<ReferenceBody>) -> (r: Result<String, ReferenceError>)
    ensures
        reference_result_view(r) == body_reference_of(
            body@.len(),
            match parsed {
                Some(b) => Some(reference_view(b)),
                None => None,
            },
        ),
{
    if body.len() == 0 {
        return Err(ReferenceError::BodyRequired);
    }
    match parsed {
        None => Err(ReferenceError::NotJson),
        Some(b) => provider_reference(b),
    }
}

/// The message that answers a body that names no provider.
pub open spec fn reference_error_text(e: ReferenceError) -> Seq<char> {
    match e {
        ReferenceError::MissingName => "id or alias is required"@,
        ReferenceError::WrongShape => "request body must be a string or object"@,
        ReferenceError::BodyRequired => "request body is required"@,
        ReferenceError::NotJson => "parse request body"@,
    }
}

/// The message that answers a body that names no provider.
pub fn reference_error_message(e: ReferenceError) -> (r: &'static str)
    ensures
        r@ == reference_error_text(e),
{
    match e {
        ReferenceError::MissingName => "id or alias is required",
        ReferenceError::WrongShape => "request body must be a string or object",
        ReferenceError::BodyRequired => "request body is required",
        ReferenceError::NotJson => "parse request body",
    }
}

} // verus!
