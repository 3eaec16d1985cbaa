//! A request bound to the kind of answer that it calls for.
//!
//! The transport sends the request and hands back the status of the
//! response and what it could decode of the body; `receive` decides what
//! the caller gets.

use vstd::prelude::*;
use core::marker::PhantomData;
use crate::envelope::Envelope;
use crate::reply::outcome;
use crate::reply::VultrError;
use crate::request::VultrRequest;
use crate::status::classify;
use crate::status::StatusClass;

verus! {

/// A request whose answer comes in the envelope `E`.
#[derive(Debug)]
pub struct VultrCall<E> {
    /// What to send.
    pub request: VultrRequest,
    /// Marks the envelope; holds nothing.
    pub expect: PhantomData<E>,
}

impl<E: Envelope> VultrCall<E> {
    /// Binds `request` to the envelope `E`.
    pub fn new(request: VultrRequest) -> (call: VultrCall<E>)
        ensures
            call.request == request,
    {
        VultrCall { request, expect: PhantomData }
    }

    /// Turns the response to this call into the payload or the error that
    /// it stands for.
    ///
    /// `message` is the text under `error` in the body and `envelope` the
    /// decoded body; each is `None` where the body does not decode that
    /// way. A 4xx status yields the provider's message and nothing else;
    /// any other status outside 2xx yields the status; a 2xx status yields
    /// the payload of the envelope, unchanged.
    pub fn receive(&self, status: u16, message: Option<String>, envelope: Option<E>) -> (result:
        Result<E::Payload, VultrError>)
        ensures
            result == outcome(status, message, envelope),
    {
        match classify(status) {
            StatusClass::ClientError => match message {
                Some(msg) => Err(VultrError::Api { msg }),
                None => Err(VultrError::Decode),
            },
            StatusClass::Failure => Err(VultrError::Transport { status }),
            StatusClass::Success => match envelope {
                Some(root) => Ok(root.into_payload()),
                None => Err(VultrError::Decode),
            },
        }
    }
}

} // verus!
