use vstd::prelude::*;

verus! {
// Numeric opcodes of the device protocol, as the device firmware defines them.
pub const CMD_CONNECT: u32 = 0xaf3c2828;
pub const CMD_MOUSE_MOVE: u32 = 0xaede7345;
pub const CMD_MOUSE_LEFT: u32 = 0x9823ae8d;
pub const CMD_MOUSE_MIDDLE: u32 = 0x97a3ae8d;
pub const CMD_MOUSE_RIGHT: u32 = 0x238d8212;
pub const CMD_MOUSE_WHEEL: u32 = 0xffeead38;
pub const CMD_MOUSE_AUTOMOVE: u32 = 0xaede7346;
pub const CMD_KEYBOARD_ALL: u32 = 0x123c2c2f;
pub const CMD_REBOOT: u32 = 0xaa8855aa;
pub const CMD_BAZER_MOVE: u32 = 0xa238455a;
pub const CMD_MONITOR: u32 = 0x27388020;
pub const CMD_DEBUG: u32 = 0x27382021;
pub const CMD_MASK_MOUSE: u32 = 0x23234343;
pub const CMD_UNMASK_ALL: u32 = 0x23344343;
pub const CMD_SETCONFIG: u32 = 0x1d3d3323;
pub const CMD_SHOWPIC: u32 = 0x12334883;

/// The closed set of commands of the device protocol.
#[allow(non_camel_case_types)]
#[derive(Debug, Clone, Copy, PartialEq, Eq, Structural)]
pub enum CMD {
    CONNECT,
    MOUSE_MOVE,
    MOUSE_LEFT,
    MOUSE_MIDDLE,
    MOUSE_RIGHT,
    MOUSE_WHEEL,
    MOUSE_AUTOMOVE,
    KEYBOARD_ALL,
    REBOOT,
    BAZER_MOVE,
    MONITOR,
    DEBUG,
    MASK_MOUSE,
    UNMASK_ALL,
    SETCONFIG,
    SHOWPIC,
}

/// The opcode that stands for a command on the wire.
pub open spec fn opcode(cmd: CMD) -> u32 {
    match cmd {
        CMD::CONNECT => CMD_CONNECT,
        CMD::MOUSE_MOVE => CMD_MOUSE_MOVE,
        CMD::MOUSE_LEFT => CMD_MOUSE_LEFT,
        CMD::MOUSE_MIDDLE => CMD_MOUSE_MIDDLE,
        CMD::MOUSE_RIGHT => CMD_MOUSE_RIGHT,
        CMD::MOUSE_WHEEL => CMD_MOUSE_WHEEL,
        CMD::MOUSE_AUTOMOVE => CMD_MOUSE_AUTOMOVE,
        CMD::KEYBOARD_ALL => CMD_KEYBOARD_ALL,
        CMD::REBOOT => CMD_REBOOT,
        CMD::BAZER_MOVE => CMD_BAZER_MOVE,
        CMD::MONITOR => CMD_MONITOR,
        CMD::DEBUG => CMD_DEBUG,
        CMD::MASK_MOUSE => CMD_MASK_MOUSE,
        CMD::UNMASK_ALL => CMD_UNMASK_ALL,
        CMD::SETCONFIG => CMD_SETCONFIG,
        CMD::SHOWPIC => CMD_SHOWPIC,
    }
}

/// The readable name of a command.
pub open spec fn command_name(cmd: CMD) -> Seq<char> {
    match cmd {
        CMD::CONNECT => "CONNECT"@,
        CMD::MOUSE_MOVE => "MOUSE_MOVE"@,
        CMD::MOUSE_LEFT => "MOUSE_LEFT"@,
        CMD::MOUSE_MIDDLE => "MOUSE_MIDDLE"@,
        CMD::MOUSE_RIGHT => "MOUSE_RIGHT"@,
        CMD::MOUSE_WHEEL => "MOUSE_WHEEL"@,
        CMD::MOUSE_AUTOMOVE => "MOUSE_AUTOMOVE"@,
        CMD::KEYBOARD_ALL => "KEYBOARD_ALL"@,
        CMD::REBOOT => "REBOOT"@,
        CMD::BAZER_MOVE => "BAZER_MOVE"@,
        CMD::MONITOR => "MONITOR"@,
        CMD::DEBUG => "DEBUG"@,
        CMD::MASK_MOUSE => "MASK_MOUSE"@,
        CMD::UNMASK_ALL => "UNMASK_ALL"@,
        CMD::SETCONFIG => "SETCONFIG"@,
        CMD::SHOWPIC => "SHOWPIC"@,
    }
}

/// Whether `code` is the opcode of some command.
pub open spec fn is_opcode(code: u32) -> bool {
    code == CMD_CONNECT
        || code == CMD_MOUSE_MOVE
        || code == CMD_MOUSE_LEFT
        || code == CMD_MOUSE_MIDDLE
        || code == CMD_MOUSE_RIGHT
        || code == CMD_MOUSE_WHEEL
        || code == CMD_MOUSE_AUTOMOVE
        || code == CMD_KEYBOARD_ALL
        || code == CMD_REBOOT
        || code == CMD_BAZER_MOVE
        || code == CMD_MONITOR
        || code == CMD_DEBUG
        || code == CMD_MASK_MOUSE
        || code == CMD_UNMASK_ALL
        || code == CMD_SETCONFIG
        || code == CMD_SHOWPIC
}

/// Whether the session knows how to send the command: the mouse, keyboard,
/// connect and reboot commands. The device-management commands are defined
/// but have no send-side behaviour.
pub open spec fn is_sendable(cmd: CMD) -> bool {
    match cmd {
        CMD::CONNECT | CMD::MOUSE_MOVE | CMD::MOUSE_LEFT | CMD::MOUSE_MIDDLE | CMD::MOUSE_RIGHT
        | CMD::MOUSE_WHEEL | CMD::MOUSE_AUTOMOVE | CMD::KEYBOARD_ALL | CMD::REBOOT => true,
        _ => false,
    }
}

impl CMD {
    /// The opcode of this command.
    pub fn code(self) -> (r: u32)
        ensures
            r == opcode(self),
    {
        match self {
            CMD::CONNECT => CMD_CONNECT,
            CMD::MOUSE_MOVE => CMD_MOUSE_MOVE,
            CMD::MOUSE_LEFT => CMD_MOUSE_LEFT,
            CMD::MOUSE_MIDDLE => CMD_MOUSE_MIDDLE,
            CMD::MOUSE_RIGHT => CMD_MOUSE_RIGHT,
            CMD::MOUSE_WHEEL => CMD_MOUSE_WHEEL,
            CMD::MOUSE_AUTOMOVE => CMD_MOUSE_AUTOMOVE,
            CMD::KEYBOARD_ALL => CMD_KEYBOARD_ALL,
            CMD::REBOOT => CMD_REBOOT,
            CMD::BAZER_MOVE => CMD_BAZER_MOVE,
            CMD::MONITOR => CMD_MONITOR,
            CMD::DEBUG => CMD_DEBUG,
            CMD::MASK_MOUSE => CMD_MASK_MOUSE,
            CMD::UNMASK_ALL => CMD_UNMASK_ALL,
            CMD::SETCONFIG => CMD_SETCONFIG,
            CMD::SHOWPIC => CMD_SHOWPIC,
        }
    }

    /// The readable name of this command.
    pub fn name(self) -> (r: &'static str)
        ensures
            r@ == command_name(self),
    {
        proof {
            reveal_strlit("CONNECT");
            reveal_strlit("MOUSE_MOVE");
            reveal_strlit("MOUSE_LEFT");
            reveal_strlit("MOUSE_MIDDLE");
            reveal_strlit("MOUSE_RIGHT");
            reveal_strlit("MOUSE_WHEEL");
            reveal_strlit("MOUSE_AUTOMOVE");
            reveal_strlit("KEYBOARD_ALL");
            reveal_strlit("REBOOT");
            reveal_strlit("BAZER_MOVE");
            reveal_strlit("MONITOR");
            reveal_strlit("DEBUG");
            reveal_strlit("MASK_MOUSE");
            reveal_strlit("UNMASK_ALL");
            reveal_strlit("SETCONFIG");
            reveal_strlit("SHOWPIC");
        }
        match self {
            CMD::CONNECT => "CONNECT",
            CMD::MOUSE_MOVE => "MOUSE_MOVE",
            CMD::MOUSE_LEFT => "MOUSE_LEFT",
            CMD::MOUSE_MIDDLE => "MOUSE_MIDDLE",
            CMD::MOUSE_RIGHT => "MOUSE_RIGHT",
            CMD::MOUSE_WHEEL => "MOUSE_WHEEL",
            CMD::MOUSE_AUTOMOVE => "MOUSE_AUTOMOVE",
            CMD::KEYBOARD_ALL => "KEYBOARD_ALL",
            CMD::REBOOT => "REBOOT",
            CMD::BAZER_MOVE => "BAZER_MOVE",
            CMD::MONITOR => "MONITOR",
            CMD::DEBUG => "DEBUG",
            CMD::MASK_MOUSE => "MASK_MOUSE",
            CMD::UNMASK_ALL => "UNMASK_ALL",
            CMD::SETCONFIG => "SETCONFIG",
            CMD::SHOWPIC => "SHOWPIC",
        }
    }

    /// The command whose opcode is `code`; `None` for a number that is no opcode.
    pub fn from_opcode(code: u32) -> (r: Option<CMD>)
        ensures
            r matches Some(c) ==> opcode(c) == code,
            r is None <==> !is_opcode(code),
    {
        if code == CMD_CONNECT {
            Some(CMD::CONNECT)
        } else if code == CMD_MOUSE_MOVE {
            Some(CMD::MOUSE_MOVE)
        } else if code == CMD_MOUSE_LEFT {
            Some(CMD::MOUSE_LEFT)
        } else if code == CMD_MOUSE_MIDDLE {
            Some(CMD::MOUSE_MIDDLE)
        } else if code == CMD_MOUSE_RIGHT {
            Some(CMD::MOUSE_RIGHT)
        } else if code == CMD_MOUSE_WHEEL {
            Some(CMD::MOUSE_WHEEL)
        } else if code == CMD_MOUSE_AUTOMOVE {
            Some(CMD::MOUSE_AUTOMOVE)
        } else if code == CMD_KEYBOARD_ALL {
            Some(CMD::KEYBOARD_ALL)
        } else if code == CMD_REBOOT {
            Some(CMD::REBOOT)
        } else if code == CMD_BAZER_MOVE {
            Some(CMD::BAZER_MOVE)
        } else if code == CMD_MONITOR {
            Some(CMD::MONITOR)
        } else if code == CMD_DEBUG {
            Some(CMD::DEBUG)
        } else if code == CMD_MASK_MOUSE {
            Some(CMD::MASK_MOUSE)
        } else if code == CMD_UNMASK_ALL {
            Some(CMD::UNMASK_ALL)
        } else if code == CMD_SETCONFIG {
            Some(CMD::SETCONFIG)
        } else if code == CMD_SHOWPIC {
            Some(CMD::SHOWPIC)
        } else {
            None
        }
    }

    /// The command whose opcode is `code`, which must be a known opcode: the
    /// opcode set is closed, so decoding any other number is a caller's error.
    pub fn from_known(code: u32) -> (r: CMD)
        requires
            is_opcode(code),
        ensures
            opcode(r) == code,
    {
        match Self::from_opcode(code) {
            Some(c) => c,
            None => CMD::CONNECT,
        }
    }

    /// Whether the session can send this command.
    pub fn is_sendable(self) -> (r: bool)
        ensures
            r == is_sendable(self),
    {
        match self {
            CMD::CONNECT | CMD::MOUSE_MOVE | CMD::MOUSE_LEFT | CMD::MOUSE_MIDDLE | CMD::MOUSE_RIGHT
            | CMD::MOUSE_WHEEL | CMD::MOUSE_AUTOMOVE | CMD::KEYBOARD_ALL | CMD::REBOOT => true,
            _ => false,
        }
    }
}

/// The registry is a bijection: every command's opcode is an opcode, and no
/// two commands share one, so [`CMD::from_opcode`] gives each command back
/// from its opcode.
pub proof fn opcode_round_trip(a: CMD, b: CMD)
    ensures
        is_opcode(opcode(a)),
        opcode(a) == opcode(b) ==> a == b,
{
}

impl From<CMD> for u32 {
    fn from(cmd: CMD) -> (r: u32) {
        cmd.code()
    }
}

impl vstd::std_specs::convert::FromSpecImpl<CMD> for u32 {
    open spec fn obeys_from_spec() -> bool {
        true
    }

    open spec fn from_spec(cmd: CMD) -> u32 {
        opcode(cmd)
    }
}

} // verus!
