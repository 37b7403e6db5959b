//! The pass-through backend: each device action becomes one call of the
//! host's native input simulation. Keyboard actions are not wired yet and do
//! nothing.

use crate::button_state::{wheel_value, ButtonState};
use crate::errors::{ConnectionFailure, InputMiddlewareConnectionError};
use crate::DeviceAction;
use vstd::prelude::*;

verus! {

/// The pass-through backend needs no settings.
#[derive(Debug, Clone, Copy)]
pub struct SysCallConfig;

/// The host's input simulation could not be opened.
#[derive(Debug)]
pub struct SysCallConnectionError(pub ConnectionFailure);

impl From<SysCallConnectionError> for InputMiddlewareConnectionError {
    fn from(e: SysCallConnectionError) -> (r: InputMiddlewareConnectionError) {
        InputMiddlewareConnectionError(e.0)
    }
}

impl vstd::std_specs::convert::FromSpecImpl<SysCallConnectionError> for InputMiddlewareConnectionError {
    open spec fn obeys_from_spec() -> bool {
        true
    }

    open spec fn from_spec(e: SysCallConnectionError) -> InputMiddlewareConnectionError {
        InputMiddlewareConnectionError(e.0)
    }
}

/// A mouse button of the host's input simulation.
#[derive(Debug, Clone, Copy, PartialEq, Eq, Structural)]
pub enum SysButton {
    Left,
    Right,
    /// The first extra button.
    X1,
    /// The second extra button.
    X2,
}

/// One call of the host's input simulation.
#[derive(Debug, Clone, Copy, PartialEq, Eq, Structural)]
pub enum SysCallRequest {
    /// Nothing to simulate.
    Nothing,
    /// Press (`press`) or release a button.
    Button { button: SysButton, press: bool },
    /// Turn the vertical wheel by a signed amount.
    Scroll(i32),
    /// Move the pointer relative to where it is.
    MoveRelative(i32, i32),
}

/// The button that a click action simulates.
pub open spec fn button_for(action: DeviceAction) -> SysButton {
    match action {
        DeviceAction::MouseLeftClick(_) => SysButton::Left,
        DeviceAction::MouseRightClick(_) => SysButton::Right,
        DeviceAction::MouseMiddleClick(_) | DeviceAction::MouseSide1Click(_) => SysButton::X1,
        _ => SysButton::X2,
    }
}

/// The call that carries an action to the host.
pub open spec fn syscall_for(action: DeviceAction) -> SysCallRequest {
    match action {
        DeviceAction::KeyboardKeydown(_) | DeviceAction::KeyboardKeyup(_) => SysCallRequest::Nothing,
        DeviceAction::MouseLeftClick(s) | DeviceAction::MouseRightClick(s)
        | DeviceAction::MouseMiddleClick(s) | DeviceAction::MouseSide1Click(s)
        | DeviceAction::MouseSide2Click(s) | DeviceAction::MouseWheelClick(s) => {
            SysCallRequest::Button { button: button_for(action), press: s == ButtonState::Pressed }
        },
        DeviceAction::MouseWheel(w) => SysCallRequest::Scroll(wheel_value(w)),
        DeviceAction::MouseMove(dx, dy) => SysCallRequest::MoveRelative(dx, dy),
    }
}

/// The call of the host's input simulation that carries out an action.
pub fn request_for(action: DeviceAction) -> (r: SysCallRequest)
    ensures
        r == syscall_for(action),
{
    let press = |s: ButtonState| -> (p: bool)
        ensures
            p == (s == ButtonState::Pressed),
        {
            match s {
                ButtonState::Pressed => true,
                ButtonState::Released => false,
            }
        };
    match action {
        DeviceAction::KeyboardKeydown(_) | DeviceAction::KeyboardKeyup(_) => SysCallRequest::Nothing,
        DeviceAction::MouseLeftClick(s) => SysCallRequest::Button {
            button: SysButton::Left,
            press: press(s),
        },
        DeviceAction::MouseRightClick(s) => SysCallRequest::Button {
            button: SysButton::Right,
            press: press(s),
        },
        DeviceAction::MouseMiddleClick(s) | DeviceAction::MouseSide1Click(s) => {
            SysCallRequest::Button { button: SysButton::X1, press: press(s) }
        },
        DeviceAction::MouseSide2Click(s) | DeviceAction::MouseWheelClick(s) => {
            SysCallRequest::Button { button: SysButton::X2, press: press(s) }
        },
        DeviceAction::MouseWheel(w) => SysCallRequest::Scroll(w.value()),
        DeviceAction::MouseMove(dx, dy) => SysCallRequest::MoveRelative(dx, dy),
    }
}

} // verus!
