use vstd::prelude::*;

verus! {

/// State of a mouse button in a click command.
#[derive(Debug, Clone, Copy, PartialEq, Eq, Structural)]
pub enum ButtonState {
    Pressed,
    Released,
}

/// Movement of the mouse wheel: up or down by a magnitude, or released.
#[derive(Debug, Clone, Copy, PartialEq, Eq, Structural)]
pub enum MwheelState {
    Up(i32),
    Released,
    Down(i32),
}

/// Bit pattern that a button state puts in the report: pressed is 1, released is 0.
pub open spec fn button_bits(state: ButtonState) -> i32 {
    match state {
        ButtonState::Pressed => 1,
        ButtonState::Released => 0,
    }
}

/// A report value read back as a button state: 1 is pressed, anything else released.
pub open spec fn button_state_of(bits: i32) -> ButtonState {
    if bits == 1 {
        ButtonState::Pressed
    } else {
        ButtonState::Released
    }
}

/// Signed wheel magnitude: up is `+n`, down is `-n` (two's complement, so
/// `Down(i32::MIN)` stays `i32::MIN`), released is 0.
pub open spec fn wheel_value(state: MwheelState) -> i32 {
    match state {
        MwheelState::Up(n) => n,
        MwheelState::Released => 0,
        MwheelState::Down(n) => if n == i32::MIN {
            i32::MIN
        } else {
            (-n) as i32
        },
    }
}

impl ButtonState {
    /// The report bits of this state.
    pub fn bits(self) -> (r: i32)
        ensures
            r == button_bits(self),
    {
        match self {
            ButtonState::Pressed => 1,
            ButtonState::Released => 0,
        }
    }
}

impl MwheelState {
    /// The signed wheel value of this state.
    pub fn value(self) -> (r: i32)
        ensures
            r == wheel_value(self),
    {
        match self {
            MwheelState::Up(n) => n,
            MwheelState::Released => 0,
            MwheelState::Down(n) => if n == i32::MIN {
                i32::MIN
            } else {
                -n
            },
        }
    }
}

impl From<ButtonState> for i32 {
    fn from(state: ButtonState) -> (r: i32) {
        state.bits()
    }
}

impl vstd::std_specs::convert::FromSpecImpl<ButtonState> for i32 {
    open spec fn obeys_from_spec() -> bool {
        true
    }

    open spec fn from_spec(state: ButtonState) -> i32 {
        button_bits(state)
    }
}

impl From<i32> for ButtonState {
    fn from(bits: i32) -> (r: ButtonState) {
        if bits == 1 {
            ButtonState::Pressed
        } else {
            ButtonState::Released
        }
    }
}

impl vstd::std_specs::convert::FromSpecImpl<i32> for ButtonState {
    open spec fn obeys_from_spec() -> bool {
        true
    }

    open spec fn from_spec(bits: i32) -> ButtonState {
        button_state_of(bits)
    }
}

impl From<MwheelState> for i32 {
    fn from(state: MwheelState) -> (r: i32) {
        state.value()
    }
}

impl vstd::std_specs::convert::FromSpecImpl<MwheelState> for i32 {
    open spec fn obeys_from_spec() -> bool {
        true
    }

    open spec fn from_spec(state: MwheelState) -> i32 {
        wheel_value(state)
    }
}

} // verus!
