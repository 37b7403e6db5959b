//! The virtual-machine control backend: JSON messages over a stream. Of the
//! device actions it implements the relative move alone.

pub mod cmd;

use crate::errors::{
    ConnectionFailure, InputMiddlewareConnectionError, InputMiddlewareSendError, SendFailure,
};
use crate::qmp::cmd::{
    relative_event, QMPInputSendAxis, QMPInputSendMouseEvent, QMPInputSendMouseMoveData,
    QMPMessage,
};
use crate::{operation_of, DeviceAction};
use vstd::prelude::*;

verus! {

/// Host and port of a QMP endpoint.
#[derive(Debug, Clone)]
pub struct QMPConfig {
    pub host: String,
    pub port: u16,
}

/// A connection to the QMP endpoint could not be opened.
#[derive(Debug)]
pub struct QMPConnectionError(pub ConnectionFailure);

/// A QMP action failed.
#[derive(Debug)]
pub struct QMPSendError(pub SendFailure);

impl From<QMPSendError> for InputMiddlewareSendError {
    fn from(e: QMPSendError) -> (r: InputMiddlewareSendError) {
        InputMiddlewareSendError(e.0)
    }
}

impl vstd::std_specs::convert::FromSpecImpl<QMPSendError> for InputMiddlewareSendError {
    open spec fn obeys_from_spec() -> bool {
        true
    }

    open spec fn from_spec(e: QMPSendError) -> InputMiddlewareSendError {
        InputMiddlewareSendError(e.0)
    }
}

impl From<QMPConnectionError> for InputMiddlewareConnectionError {
    fn from(e: QMPConnectionError) -> (r: InputMiddlewareConnectionError) {
        InputMiddlewareConnectionError(e.0)
    }
}

impl vstd::std_specs::convert::FromSpecImpl<QMPConnectionError> for InputMiddlewareConnectionError {
    open spec fn obeys_from_spec() -> bool {
        true
    }

    open spec fn from_spec(e: QMPConnectionError) -> InputMiddlewareConnectionError {
        InputMiddlewareConnectionError(e.0)
    }
}

/// The message that carries an action to the endpoint: a relative move
/// becomes one `input-send-event` with an X event and a Y event, in that
/// order; every other action is unsupported.
pub fn request_for(action: DeviceAction) -> (r: Result<QMPMessage<QMPInputSendMouseEvent>, QMPSendError>)
    ensures
        r is Ok <==> action is MouseMove,
        r matches Err(e) ==> e.0 == SendFailure::Unsupported(operation_of(action)),
        r matches Ok(m) ==> {
            &&& m.arguments is Some
            &&& m.execute == crate::qmp::cmd::ExecuteEvent::InputSendEvent
            &&& action matches DeviceAction::MouseMove(dx, dy)
            &&& m.arguments->Some_0.events@ == seq![
                relative_event(QMPInputSendMouseMoveData { axis: QMPInputSendAxis::X, value: dx }),
                relative_event(QMPInputSendMouseMoveData { axis: QMPInputSendAxis::Y, value: dy }),
            ]
        },
{
    match action {
        DeviceAction::MouseMove(dx, dy) => {
            let pos: [i32; 2] = [dx, dy];
            Ok(QMPMessage::<QMPInputSendMouseEvent>::new(QMPInputSendMouseMoveData::from_slice(&pos)))
        },
        _ => Err(QMPSendError(SendFailure::Unsupported(action.operation()))),
    }
}

} // verus!
