//! What the provider's answer amounts to.
//!
//! A call either succeeds with the whole payload or fails with one
//! error; nothing is retried and nothing is made up.

use vstd::prelude::*;
use vstd::string::*;
use crate::envelope::Envelope;
use crate::status::status_class;
use crate::status::StatusClass;
use crate::text::decimal;
use crate::text::decimal_string;

verus! {

/// Why a call failed.
#[derive(Clone, Debug, PartialEq, Eq)]
pub enum VultrError {
    /// The provider rejected the request with a 4xx status; `msg` is its
    /// message, word for word.
    Api { msg: String },
    /// The response had a status that is neither 2xx nor 4xx.
    Transport { status: u16 },
    /// The body did not have the shape that the status calls for.
    Decode,
}

/// What a response amounts to, given its status, the error message decoded
/// from its body and the envelope decoded from its body. `None` stands for
/// a body that did not decode.
pub open spec fn outcome<E: Envelope>(
    status: u16,
    message: Option<String>,
    envelope: Option<E>,
) -> Result<E::Payload, VultrError> {
    match status_class(status) {
        StatusClass::ClientError => match message {
            Some(msg) => Err(VultrError::Api { msg }),
            None => Err(VultrError::Decode),
        },
        StatusClass::Failure => Err(VultrError::Transport { status }),
        StatusClass::Success => match envelope {
            Some(root) => Ok(root.payload()),
            None => Err(VultrError::Decode),
        },
    }
}

impl VultrError {
    /// What the error says, as text.
    pub open spec fn text(&self) -> Seq<char> {
        match self {
            VultrError::Api { msg } => msg@,
            VultrError::Transport { status } => "HTTP status "@ + decimal(*status as nat),
            VultrError::Decode => "malformed response body"@,
        }
    }

    /// Writes the error out; for a rejection by the provider, this is the
    /// provider's message itself.
    pub fn message(&self) -> (s: String)
        ensures
            s@ == self.text(),
    {
        match self {
            VultrError::Api { msg } => msg.clone(),
            VultrError::Transport { status } => {
                let code: u32 = *status as u32;
                let digits = decimal_string(code);
                String::from_str("HTTP status ").concat(digits.as_str())
            },
            VultrError::Decode => String::from_str("malformed response body"),
        }
    }
}

} // verus!
