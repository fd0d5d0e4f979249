//! The sensor's register address map and its fixed protocol constants.
//!
//! Each constant names one byte offset into the device's internal register
//! space, as fixed by the hardware. Unresolved names are a compile-time
//! failure; there is no runtime lookup.

use vstd::prelude::*;

verus! {

/// Bus address used for every transaction with the device.
pub const ADDR: u8 = 0xD0;

/// The byte the identity register is expected to hold.
pub const DEFAULT_SLAVE_ADDR: u8 = 0x68;

pub const SELF_TEST_X: u8 = 0x0D;
pub const SELF_TEST_Y: u8 = 0x0E;
pub const SELF_TEST_Z: u8 = 0x0F;
pub const SELF_TEST_A: u8 = 0x10;
pub const SMPLRT_DIV: u8 = 0x19;
pub const CONFIG: u8 = 0x1A;
pub const GYRO_CONFIG: u8 = 0x1B;
pub const ACCEL_CONFIG: u8 = 0x1C;
pub const FIFO_EN: u8 = 0x23;
pub const I2C_MST_CTRL: u8 = 0x24;
pub const I2C_SLV0_ADDR: u8 = 0x25;
pub const I2C_SLV0_REG: u8 = 0x26;
pub const I2C_SLV0_CTRL: u8 = 0x27;
pub const I2C_SLV1_ADDR: u8 = 0x28;
pub const I2C_SLV1_REG: u8 = 0x29;
pub const I2C_SLV1_CTRL: u8 = 0x2A;
pub const I2C_SLV2_ADDR: u8 = 0x2B;
pub const I2C_SLV2_REG: u8 = 0x2C;
pub const I2C_SLV2_CTRL: u8 = 0x2D;
pub const I2C_SLV3_ADDR: u8 = 0x2E;
pub const I2C_SLV3_REG: u8 = 0x2F;
pub const I2C_SLV3_CTRL: u8 = 0x30;
pub const I2C_SLV4_ADDR: u8 = 0x31;
pub const I2C_SLV4_REG: u8 = 0x32;
pub const I2C_SLV4_DO: u8 = 0x33;
pub const I2C_SLV4_CTRL: u8 = 0x34;
pub const I2C_SLV4_DI: u8 = 0x35;
pub const I2C_MST_STATUS: u8 = 0x36;
pub const INT_PIN_CFG: u8 = 0x37;
pub const INT_ENABLE: u8 = 0x38;
pub const INT_STATUS: u8 = 0x3A;
pub const ACCEL_XOUT_H: u8 = 0x3B;
pub const ACCEL_XOUT_L: u8 = 0x3C;
pub const ACCEL_YOUT_H: u8 = 0x3D;
pub const ACCEL_YOUT_L: u8 = 0x3E;
pub const ACCEL_ZOUT_H: u8 = 0x3F;
pub const ACCEL_ZOUT_L: u8 = 0x40;
pub const TEMP_OUT_H: u8 = 0x41;
pub const TEMP_OUT_L: u8 = 0x42;
pub const GYRO_XOUT_H: u8 = 0x43;
pub const GYRO_XOUT_L: u8 = 0x44;
pub const GYRO_YOUT_H: u8 = 0x45;
pub const GYRO_YOUT_L: u8 = 0x46;
pub const GYRO_ZOUT_H: u8 = 0x47;
pub const GYRO_ZOUT_L: u8 = 0x48;
pub const EXT_SENS_DATA_00: u8 = 0x49;
pub const EXT_SENS_DATA_01: u8 = 0x4A;
pub const EXT_SENS_DATA_02: u8 = 0x4B;
pub const EXT_SENS_DATA_03: u8 = 0x4C;
pub const EXT_SENS_DATA_04: u8 = 0x4D;
pub const EXT_SENS_DATA_05: u8 = 0x4E;
pub const EXT_SENS_DATA_06: u8 = 0x4F;
pub const EXT_SENS_DATA_07: u8 = 0x50;
pub const EXT_SENS_DATA_08: u8 = 0x51;
pub const EXT_SENS_DATA_09: u8 = 0x52;
pub const EXT_SENS_DATA_10: u8 = 0x53;
pub const EXT_SENS_DATA_11: u8 = 0x54;
pub const EXT_SENS_DATA_12: u8 = 0x55;
pub const EXT_SENS_DATA_13: u8 = 0x56;
pub const EXT_SENS_DATA_14: u8 = 0x57;
pub const EXT_SENS_DATA_15: u8 = 0x58;
pub const EXT_SENS_DATA_16: u8 = 0x59;
pub const EXT_SENS_DATA_17: u8 = 0x5A;
pub const EXT_SENS_DATA_18: u8 = 0x5B;
pub const EXT_SENS_DATA_19: u8 = 0x5C;
pub const EXT_SENS_DATA_20: u8 = 0x5D;
pub const EXT_SENS_DATA_21: u8 = 0x5E;
pub const EXT_SENS_DATA_22: u8 = 0x5F;
pub const EXT_SENS_DATA_23: u8 = 0x60;
pub const I2C_SLV0_DO: u8 = 0x63;
pub const I2C_SLV1_DO: u8 = 0x64;
pub const I2C_SLV2_DO: u8 = 0x65;
pub const I2C_SLV3_DO: u8 = 0x66;
pub const I2C_MST_DELAY_CTRL: u8 = 0x67;
pub const SIGNAL_PATH_RESET: u8 = 0x68;
pub const USER_CTRL: u8 = 0x6A;
pub const PWR_MGMT_1: u8 = 0x6B;
pub const PWR_MGMT_2: u8 = 0x6C;
pub const FIFO_COUNTH: u8 = 0x72;
pub const FIFO_COUNTL: u8 = 0x73;
pub const FIFO_R_W: u8 = 0x74;
pub const WHO_AM_I: u8 = 0x75;

} // verus!
