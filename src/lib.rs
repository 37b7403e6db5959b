//! Client library that drives network-attached input-injection devices.
//!
//! The verified core holds the wire format of the device protocol, the command
//! registry, the request/reply session state and the per-backend decisions of
//! the uniform device-action surface. Sockets and other I/O live outside it.

pub mod button_state;
pub mod devices;
pub mod errors;
pub mod keyboardkeys;
pub mod kmbox_net;
pub mod qmp;
pub mod syscall;

use crate::button_state::{ButtonState, MwheelState};
use crate::errors::InputMiddlewareSendError;
use crate::keyboardkeys::KeyboardKey;
use crate::kmbox_net::KMBoxNetConfig;
use crate::qmp::QMPConfig;
use crate::syscall::SysCallConfig;
use vstd::prelude::*;

verus! {

/// The backend to open, with its settings.
#[derive(Debug, Clone)]
pub enum InputDevice {
    KMBoxNet(KMBoxNetConfig),
    SysCall(SysCallConfig),
    QMP(QMPConfig),
}

/// The operations of the uniform device-action surface.
#[derive(Debug, Clone, Copy, PartialEq, Eq, Structural)]
pub enum DeviceOperation {
    KeyboardKeydown,
    KeyboardKeyup,
    MouseLeftClick,
    MouseRightClick,
    MouseMiddleClick,
    MouseSide1Click,
    MouseSide2Click,
    MouseWheelClick,
    MouseWheel,
    MouseMove,
}

/// One invocation of a device-action operation, with its argument.
#[derive(Debug, Clone, Copy, PartialEq, Eq, Structural)]
pub enum DeviceAction {
    KeyboardKeydown(KeyboardKey),
    KeyboardKeyup(KeyboardKey),
    MouseLeftClick(ButtonState),
    MouseRightClick(ButtonState),
    MouseMiddleClick(ButtonState),
    MouseSide1Click(ButtonState),
    MouseSide2Click(ButtonState),
    MouseWheelClick(ButtonState),
    MouseWheel(MwheelState),
    MouseMove(i32, i32),
}

/// The operation that an action invokes.
pub open spec fn operation_of(action: DeviceAction) -> DeviceOperation {
    match action {
        DeviceAction::KeyboardKeydown(_) => DeviceOperation::KeyboardKeydown,
        DeviceAction::KeyboardKeyup(_) => DeviceOperation::KeyboardKeyup,
        DeviceAction::MouseLeftClick(_) => DeviceOperation::MouseLeftClick,
        DeviceAction::MouseRightClick(_) => DeviceOperation::MouseRightClick,
        DeviceAction::MouseMiddleClick(_) => DeviceOperation::MouseMiddleClick,
        DeviceAction::MouseSide1Click(_) => DeviceOperation::MouseSide1Click,
        DeviceAction::MouseSide2Click(_) => DeviceOperation::MouseSide2Click,
        DeviceAction::MouseWheelClick(_) => DeviceOperation::MouseWheelClick,
        DeviceAction::MouseWheel(_) => DeviceOperation::MouseWheel,
        DeviceAction::MouseMove(_, _) => DeviceOperation::MouseMove,
    }
}

impl DeviceAction {
    /// The operation that this action invokes.
    pub fn operation(&self) -> (r: DeviceOperation)
        ensures
            r == operation_of(*self),
    {
        match self {
            DeviceAction::KeyboardKeydown(_) => DeviceOperation::KeyboardKeydown,
            DeviceAction::KeyboardKeyup(_) => DeviceOperation::KeyboardKeyup,
            DeviceAction::MouseLeftClick(_) => DeviceOperation::MouseLeftClick,
            DeviceAction::MouseRightClick(_) => DeviceOperation::MouseRightClick,
            DeviceAction::MouseMiddleClick(_) => DeviceOperation::MouseMiddleClick,
            DeviceAction::MouseSide1Click(_) => DeviceOperation::MouseSide1Click,
            DeviceAction::MouseSide2Click(_) => DeviceOperation::MouseSide2Click,
            DeviceAction::MouseWheelClick(_) => DeviceOperation::MouseWheelClick,
            DeviceAction::MouseWheel(_) => DeviceOperation::MouseWheel,
            DeviceAction::MouseMove(_, _) => DeviceOperation::MouseMove,
        }
    }
}

/// The actions that every input backend offers. A backend that lacks one
/// returns an error whose failure is `Unsupported`, and never panics.
pub trait InputMiddlewareDeviceAction {
    /// Press a key.
    fn keyboard_keydown(&mut self, key: KeyboardKey) -> Result<(), InputMiddlewareSendError>;

    /// Release a key.
    fn keyboard_keyup(&mut self, key: KeyboardKey) -> Result<(), InputMiddlewareSendError>;

    /// Press or release the left button.
    fn mouse_left_click(&mut self, state: ButtonState) -> Result<(), InputMiddlewareSendError>;

    /// Press or release the right button.
    fn mouse_right_click(&mut self, state: ButtonState) -> Result<(), InputMiddlewareSendError>;

    /// Press or release the middle button.
    fn mouse_middle_click(&mut self, state: ButtonState) -> Result<(), InputMiddlewareSendError>;

    /// Press or release the first side button.
    fn mouse_side1_click(&mut self, state: ButtonState) -> Result<(), InputMiddlewareSendError>;

    /// Press or release the second side button.
    fn mouse_side2_click(&mut self, state: ButtonState) -> Result<(), InputMiddlewareSendError>;

    /// Press or release the wheel button.
    fn mouse_wheel_click(&mut self, state: ButtonState) -> Result<(), InputMiddlewareSendError>;

    /// Turn the wheel.
    fn mouse_wheel(&mut self, state: MwheelState) -> Result<(), InputMiddlewareSendError>;

    /// Move the pointer by `pos[0]` to the right and `pos[1]` down.
    fn mouse_move(&mut self, pos: [i32; 2]) -> Result<(), InputMiddlewareSendError>;
}

} // verus!
