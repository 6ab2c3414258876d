use vstd::prelude::*;

verus! {

/// Status and controller numbers of the MIDI wire format, plus a few handy values.

/// Note number of middle C.
pub const MIDDLE_C: u8 = 0x3c;

/// Nanoseconds in one millisecond.
pub const MS_IN_NANO: u32 = 1_000_000;

/// Status nibble of a Note-On message.
pub const NOTE_ON: u8 = 0b1001_0000;

/// Status nibble of a Note-Off message.
pub const NOTE_OFF: u8 = 0b1000_0000;

/// Velocity sent with every Note-Off, by common MIDI convention.
pub const DEFAULT_NOTE_OFF_VEL: u8 = 64;

/// System real-time byte: start playback.
pub const START: u8 = 0b1111_1010;

/// System real-time byte: stop playback.
pub const STOP: u8 = 0b1111_1100;

/// System real-time byte: continue playback.
pub const CONTINUE: u8 = 0b1111_1011;

/// System real-time byte: one timing-clock pulse.
pub const CLOCK: u8 = 0b1111_1000;

/// Controller that selects the coarse half of an NRPN address.
pub const NRPN_MSB: u8 = 0x63;

/// Controller that selects the fine half of an NRPN address.
pub const NRPN_LSB: u8 = 0x62;

/// Controller that selects the coarse half of an RPN address.
pub const RPN_MSB: u8 = 0x65;

/// Controller that selects the fine half of an RPN address.
pub const RPN_LSB: u8 = 0x64;

/// Data-entry controller, coarse half.
pub const NRPN_VAL_MSB: u8 = 0x06;

/// Data-entry controller, fine half.
pub const NRPN_VAL_LSB: u8 = 0x26;

/// Data-entry controller of an RPN, coarse half (shared with NRPN).
pub const RPN_VAL_MSB: u8 = 0x06;

/// Data-entry controller of an RPN, fine half (shared with NRPN).
pub const RPN_VAL_LSB: u8 = 0x26;

/// Status nibble of a Continuous-Controller message.
pub const CC: u8 = 0xB0;

/// First byte of every System-Exclusive message.
pub const SYSEX_BEGIN: u8 = 0xF0;

/// Last byte of every System-Exclusive message.
pub const SYSEX_END: u8 = 0xF7;

/// Value written to both address controllers to deselect a parameter.
pub const NULL_SELECT: u8 = 127;

} // verus!
