//! Register map of the LIS302DL accelerometer.
use vstd::prelude::*;

verus! {

/// Fixed content of the identification register.
pub const EXPECTED_DEVICE_ID: u16 = 0x3B;

/// Identification register.
pub const REG_WHO_AM_I: u16 = 0x0F;
/// First control register: power state, data rate, range, axis enables.
pub const REG_CTRL_REG1: u16 = 0x20;
/// Output register of the X axis.
pub const REG_OUT_X: u16 = 0x29;
/// Output register of the Y axis.
pub const REG_OUT_Y: u16 = 0x2B;
/// Output register of the Z axis.
pub const REG_OUT_Z: u16 = 0x2D;

/// Control bit: 400 Hz output data rate (100 Hz when clear).
pub const DATA_RATE_400_HZ: u16 = 0x80;
/// Control bit: active mode (power-down when clear).
pub const ACTIVE_MODE: u16 = 0x40;
/// Control bit: +-8 g full scale (+-2 g when clear).
pub const SCALE_PLUS_MINUS_8G: u16 = 0x20;
/// Control bit: Z axis enabled.
pub const Z_ENABLE: u16 = 0x04;
/// Control bit: Y axis enabled.
pub const Y_ENABLE: u16 = 0x02;
/// Control bit: X axis enabled.
pub const X_ENABLE: u16 = 0x01;

/// The power-on pattern written once to the first control register: all
/// three axes, active mode, +-8 g range, default data rate.
pub const ON: u16 = X_ENABLE | Y_ENABLE | Z_ENABLE | ACTIVE_MODE | SCALE_PLUS_MINUS_8G;

/// Whether a control word has the bit `flag` set.
pub open spec fn has_flag(word: u16, flag: u16) -> bool {
    word & flag == flag
}

/// The power-on pattern enables every axis, selects active mode and the
/// +-8 g range, keeps the default data rate, and fits in one register byte.
pub proof fn lemma_power_on_pattern()
    ensures
        ON == 0x67,
        has_flag(ON, X_ENABLE),
        has_flag(ON, Y_ENABLE),
        has_flag(ON, Z_ENABLE),
        has_flag(ON, ACTIVE_MODE),
        has_flag(ON, SCALE_PLUS_MINUS_8G),
        !has_flag(ON, DATA_RATE_400_HZ),
        ON < 0x100,
{
    assert(0x01u16 | 0x02u16 | 0x04u16 | 0x40u16 | 0x20u16 == 0x67u16) by (bit_vector);
    assert(0x67u16 & 0x01u16 == 0x01u16) by (bit_vector);
    assert(0x67u16 & 0x02u16 == 0x02u16) by (bit_vector);
    assert(0x67u16 & 0x04u16 == 0x04u16) by (bit_vector);
    assert(0x67u16 & 0x40u16 == 0x40u16) by (bit_vector);
    assert(0x67u16 & 0x20u16 == 0x20u16) by (bit_vector);
    assert(0x67u16 & 0x80u16 == 0x00u16) by (bit_vector);
}

} // verus!
