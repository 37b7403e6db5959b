use vstd::prelude::*;

verus! {

/// The QMP command to execute.
#[derive(Debug, Clone, Copy, PartialEq, Eq, Structural)]
pub enum ExecuteEvent {
    InputSendEvent,
    QMPCapabilities,
}

/// Arguments of an `input-send-event` command: the events to inject.
#[derive(Debug, Clone)]
pub struct QMPInputSendArgs<T> {
    pub events: Vec<T>,
}

/// One QMP message: the command and its arguments, if any.
#[derive(Debug, Clone)]
pub struct QMPMessage<T> {
    pub execute: ExecuteEvent,
    pub arguments: Option<QMPInputSendArgs<T>>,
}

/// Whether a pointer event is relative or absolute.
#[derive(Debug, Clone, Copy, PartialEq, Eq, Structural)]
pub enum QMPInputSendMouseType {
    Rel,
    Abs,
}

/// The axis of a pointer event.
#[derive(Debug, Clone, Copy, PartialEq, Eq, Structural)]
pub enum QMPInputSendAxis {
    X,
    Y,
}

/// Motion along one axis.
#[derive(Debug, Clone, Copy, PartialEq, Eq, Structural)]
pub struct QMPInputSendMouseMoveData {
    pub axis: QMPInputSendAxis,
    pub value: i32,
}

/// A pointer event.
#[derive(Debug, Clone, Copy, PartialEq, Eq, Structural)]
pub struct QMPInputSendMouseEvent {
    pub send_type: QMPInputSendMouseType,
    pub data: QMPInputSendMouseMoveData,
}

/// The kind of a key event.
#[derive(Debug, Clone, Copy, PartialEq, Eq, Structural)]
pub enum QMPInputSendKeyType {
    Key,
}

/// How a key is named in a key event.
#[derive(Debug, Clone, Copy, PartialEq, Eq, Structural)]
pub enum QMPInputSendKeyDataType {
    QCode,
}

/// Key codes that key events can name.
#[derive(Debug, Clone, Copy, PartialEq, Eq, Structural)]
pub enum QMPSendKeyCode {
    Ctrl,
    Alt,
    Delete,
}

/// A named key.
#[derive(Debug, Clone, Copy, PartialEq, Eq, Structural)]
pub struct QMPSendKeyCodeData {
    pub send_type: QMPInputSendKeyDataType,
    pub data: QMPSendKeyCode,
}

/// A key going down or up.
#[derive(Debug, Clone, Copy, PartialEq, Eq, Structural)]
pub struct QMPInputSendKeyData {
    pub down: bool,
    pub key: QMPSendKeyCodeData,
}

/// A key event.
#[derive(Debug, Clone, Copy, PartialEq, Eq, Structural)]
pub struct QMPInputSendKeyEvent {
    pub send_type: QMPInputSendKeyType,
    pub data: QMPInputSendKeyData,
}

/// The relative pointer event of a motion.
pub open spec fn relative_event(data: QMPInputSendMouseMoveData) -> QMPInputSendMouseEvent {
    QMPInputSendMouseEvent { send_type: QMPInputSendMouseType::Rel, data }
}

impl QMPMessage<QMPInputSendMouseEvent> {
    /// An `input-send-event` command with one relative event per motion.
    pub fn new(data: [QMPInputSendMouseMoveData; 2]) -> (r: Self)
        ensures
            r.execute == ExecuteEvent::InputSendEvent,
            r.arguments is Some,
            r.arguments->Some_0.events@ == seq![relative_event(data[0]), relative_event(data[1])],
    {
        let mut events: Vec<QMPInputSendMouseEvent> = Vec::new();
        events.push(QMPInputSendMouseEvent { send_type: QMPInputSendMouseType::Rel, data: data[0] });
        events.push(QMPInputSendMouseEvent { send_type: QMPInputSendMouseType::Rel, data: data[1] });
        assert(events@ =~= seq![relative_event(data[0]), relative_event(data[1])]);
        QMPMessage {
            execute: ExecuteEvent::InputSendEvent,
            arguments: Some(QMPInputSendArgs { events }),
        }
    }
}

impl QMPMessage<QMPInputSendKeyEvent> {
    /// An `input-send-event` command with the given key events.
    pub fn new(data: Vec<QMPInputSendKeyEvent>) -> (r: Self)
        ensures
            r.execute == ExecuteEvent::InputSendEvent,
            r.arguments is Some,
            r.arguments->Some_0.events@ == data@,
    {
        QMPMessage {
            execute: ExecuteEvent::InputSendEvent,
            arguments: Some(QMPInputSendArgs { events: data }),
        }
    }
}

impl<T> QMPMessage<T> {
    /// The capabilities negotiation that opens a QMP session.
    pub fn auth() -> (r: Self)
        ensures
            r.execute == ExecuteEvent::QMPCapabilities,
            r.arguments is None,
    {
        QMPMessage { execute: ExecuteEvent::QMPCapabilities, arguments: None }
    }
}

impl QMPInputSendMouseMoveData {
    /// Motion of `value` along `axis`.
    pub fn new(axis: QMPInputSendAxis, value: i32) -> (r: Self)
        ensures
            r.axis == axis,
            r.value == value,
    {
        QMPInputSendMouseMoveData { axis, value }
    }

    /// The X motion `data[0]` and the Y motion `data[1]`.
    pub fn from_slice(data: &[i32; 2]) -> (r: [Self; 2])
        ensures
            r[0] == (QMPInputSendMouseMoveData { axis: QMPInputSendAxis::X, value: data[0] }),
            r[1] == (QMPInputSendMouseMoveData { axis: QMPInputSendAxis::Y, value: data[1] }),
    {
        [Self::new(QMPInputSendAxis::X, data[0]), Self::new(QMPInputSendAxis::Y, data[1])]
    }
}

} // verus!
