use crate::errors::{
    ConnectionFailure, InputMiddlewareConnectionError, InputMiddlewareSendError, SendFailure,
};
use vstd::prelude::*;

verus! {

/// A connection to the device could not be established.
#[derive(Debug)]
pub struct KMBoxNetConnectionError(pub ConnectionFailure);

/// A command to the device failed.
#[derive(Debug)]
pub struct KMBoxNetSendError(pub SendFailure);

impl From<KMBoxNetSendError> for InputMiddlewareSendError {
    fn from(e: KMBoxNetSendError) -> (r: InputMiddlewareSendError) {
        InputMiddlewareSendError(e.0)
    }
}

impl vstd::std_specs::convert::FromSpecImpl<KMBoxNetSendError> for InputMiddlewareSendError {
    open spec fn obeys_from_spec() -> bool {
        true
    }

    open spec fn from_spec(e: KMBoxNetSendError) -> InputMiddlewareSendError {
        InputMiddlewareSendError(e.0)
    }
}

impl From<KMBoxNetConnectionError> for InputMiddlewareConnectionError {
    fn from(e: KMBoxNetConnectionError) -> (r: InputMiddlewareConnectionError) {
        InputMiddlewareConnectionError(e.0)
    }
}

impl vstd::std_specs::convert::FromSpecImpl<KMBoxNetConnectionError> for InputMiddlewareConnectionError {
    open spec fn obeys_from_spec() -> bool {
        true
    }

    open spec fn from_spec(e: KMBoxNetConnectionError) -> InputMiddlewareConnectionError {
        InputMiddlewareConnectionError(e.0)
    }
}

} // verus!
