//! Encoding of a device parameter into the fixed 24-byte command buffer
//! that the cooler expects on its bulk endpoint.

use vstd::prelude::*;

use crate::params::{DeviceParam, ParamKind};

verus! {

/// Length of every command buffer sent to the device.
pub const COMMAND_LEN: usize = 24;

/// Byte 0 of every command: the report id.
pub const REPORT_ID: u8 = 2;

/// Byte 1 of every command: the command class.
pub const COMMAND_CLASS: u8 = 77;

/// Byte 2 of a fan-speed command: the sub-opcode selecting the fan.
pub const FAN_OPCODE: u8 = 0;

/// Byte 2 of a pump-speed command: the sub-opcode selecting the pump.
pub const PUMP_OPCODE: u8 = 64;

/// The sub-opcode that selects the controller a parameter addresses.
pub open spec fn spec_opcode(kind: ParamKind) -> u8 {
    match kind {
        ParamKind::Fan => FAN_OPCODE,
        ParamKind::Pump => PUMP_OPCODE,
    }
}

/// The command buffer for a parameter: report id, command class,
/// sub-opcode, a zero byte, the speed value, then zero padding up to
/// 24 bytes.
pub open spec fn spec_command(p: DeviceParam) -> Seq<u8> {
    Seq::new(COMMAND_LEN as nat, |i: int|
        if i == 0 {
            REPORT_ID
        } else if i == 1 {
            COMMAND_CLASS
        } else if i == 2 {
            spec_opcode(p.spec_kind())
        } else if i == 4 {
            p.spec_speed()
        } else {
            0u8
        })
}

/// The sub-opcode byte for a parameter's controller.
pub fn opcode(kind: ParamKind) -> (r: u8)
    ensures
        r == spec_opcode(kind),
{
    match kind {
        ParamKind::Fan => FAN_OPCODE,
        ParamKind::Pump => PUMP_OPCODE,
    }
}

/// Builds the 24-byte command buffer for a parameter.
///
/// Encoding a fan parameter carrying `v` yields exactly
/// `[2, 77, 0, 0, v]` followed by 19 zero bytes; a pump parameter
/// yields `[2, 77, 64, 0, v]` followed by 19 zero bytes.
pub fn encode(p: &DeviceParam) -> (r: Vec<u8>)
    ensures
        r@ == spec_command(*p),
        r@.len() == COMMAND_LEN,
        r@[0] == REPORT_ID,
        r@[1] == COMMAND_CLASS,
        r@[2] == spec_opcode(p.spec_kind()),
        r@[3] == 0,
        r@[4] == p.spec_speed(),
        forall|i: int| 5 <= i < COMMAND_LEN ==> r@[i] == 0,
{
    let op = opcode(p.kind());
    let speed = p.speed();
    let r: Vec<u8> = vec![
        REPORT_ID, COMMAND_CLASS, op, 0, speed,
        0, 0, 0, 0, 0, 0, 0, 0, 0, 0, 0, 0, 0, 0, 0, 0, 0, 0, 0,
    ];
    proof {
        assert(r@ =~= spec_command(*p));
    }
    r
}

} // verus!
