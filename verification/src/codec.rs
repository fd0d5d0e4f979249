//! Bit-exact codecs for the three packed one-byte configuration registers.
//!
//! Each register is a value type built from an all-zero default through
//! builder methods that each change one field, and finally encoded into the
//! full byte that is written to the device. Every write overwrites all eight
//! bits, so a field not set in the same builder chain is zero. Decoding
//! inverts encoding exactly; the round-trip lemmas at the end of the module
//! state that for every representable field assignment.
//!
//! Bit layout, least significant bit first:
//! - power management 1: `clksel` bits 0-2, `temp_dis` bit 3, bit 4 reserved
//!   (always emitted as zero), `cycle` bit 5, `sleep` bit 6, `device_reset`
//!   bit 7;
//! - accelerometer config: bits 0-2 reserved, `afs_sel` bits 3-4, `za_st`
//!   bit 5, `ya_st` bit 6, `xa_st` bit 7;
//! - gyroscope config: bits 0-2 reserved, `fs_sel` bits 3-4, `zg_st` bit 5,
//!   `yg_st` bit 6, `xg_st` bit 7.

use vstd::prelude::*;

verus! {

/// Clock source selected by the `clksel` field of power management 1.
#[derive(Clone, Copy, Debug, PartialEq, Eq, Structural)]
pub enum ClockSource {
    Internal8MHz,
    PllXAxis,
    PllYAxis,
    PllZAxis,
    PllExternal32768kHz,
    PllExternal192kHz,
    Reserved,
    StopClockReset,
}

/// Accelerometer full-scale range selected by `afs_sel`.
#[derive(Clone, Copy, Debug, PartialEq, Eq, Structural)]
pub enum AccelRange {
    G2,
    G4,
    G8,
    G16,
}

/// Gyroscope full-scale range selected by `fs_sel`.
#[derive(Clone, Copy, Debug, PartialEq, Eq, Structural)]
pub enum GyroRange {
    D250,
    D500,
    D1000,
    D2000,
}

impl ClockSource {
    /// The three-bit encoding of this clock source.
    pub open spec fn spec_bits(self) -> u8 {
        match self {
            ClockSource::Internal8MHz => 0,
            ClockSource::PllXAxis => 1,
            ClockSource::PllYAxis => 2,
            ClockSource::PllZAxis => 3,
            ClockSource::PllExternal32768kHz => 4,
            ClockSource::PllExternal192kHz => 5,
            ClockSource::Reserved => 6,
            ClockSource::StopClockReset => 7,
        }
    }

    /// The clock source encoded by the three low bits of `b`; bits above the
    /// field are ignored.
    pub open spec fn spec_from_bits(b: u8) -> ClockSource {
        let v = b & 0x07;
        if v == 0 {
            ClockSource::Internal8MHz
        } else if v == 1 {
            ClockSource::PllXAxis
        } else if v == 2 {
            ClockSource::PllYAxis
        } else if v == 3 {
            ClockSource::PllZAxis
        } else if v == 4 {
            ClockSource::PllExternal32768kHz
        } else if v == 5 {
            ClockSource::PllExternal192kHz
        } else if v == 6 {
            ClockSource::Reserved
        } else {
            ClockSource::StopClockReset
        }
    }

    pub fn bits(self) -> (b: u8)
        ensures
            b == self.spec_bits(),
    {
        match self {
            ClockSource::Internal8MHz => 0,
            ClockSource::PllXAxis => 1,
            ClockSource::PllYAxis => 2,
            ClockSource::PllZAxis => 3,
            ClockSource::PllExternal32768kHz => 4,
            ClockSource::PllExternal192kHz => 5,
            ClockSource::Reserved => 6,
            ClockSource::StopClockReset => 7,
        }
    }

    pub fn from_bits(b: u8) -> (r: ClockSource)
        ensures
            r == ClockSource::spec_from_bits(b),
    {
        let v: u8 = b & 0x07;
        if v == 0 {
            ClockSource::Internal8MHz
        } else if v == 1 {
            ClockSource::PllXAxis
        } else if v == 2 {
            ClockSource::PllYAxis
        } else if v == 3 {
            ClockSource::PllZAxis
        } else if v == 4 {
            ClockSource::PllExternal32768kHz
        } else if v == 5 {
            ClockSource::PllExternal192kHz
        } else if v == 6 {
            ClockSource::Reserved
        } else {
            ClockSource::StopClockReset
        }
    }
}

impl AccelRange {
    /// The two-bit encoding of this range.
    pub open spec fn spec_bits(self) -> u8 {
        match self {
            AccelRange::G2 => 0,
            AccelRange::G4 => 1,
            AccelRange::G8 => 2,
            AccelRange::G16 => 3,
        }
    }

    /// The range encoded by the two low bits of `b`; bits above the field
    /// are ignored.
    pub open spec fn spec_from_bits(b: u8) -> AccelRange {
        let v = b & 0x03;
        if v == 0 {
            AccelRange::G2
        } else if v == 1 {
            AccelRange::G4
        } else if v == 2 {
            AccelRange::G8
        } else {
            AccelRange::G16
        }
    }

    pub fn bits(self) -> (b: u8)
        ensures
            b == self.spec_bits(),
    {
        match self {
            AccelRange::G2 => 0,
            AccelRange::G4 => 1,
            AccelRange::G8 => 2,
            AccelRange::G16 => 3,
        }
    }

    pub fn from_bits(b: u8) -> (r: AccelRange)
        ensures
            r == AccelRange::spec_from_bits(b),
    {
        let v: u8 = b & 0x03;
        if v == 0 {
            AccelRange::G2
        } else if v == 1 {
            AccelRange::G4
        } else if v == 2 {
            AccelRange::G8
        } else {
            AccelRange::G16
        }
    }
}

impl GyroRange {
    /// The two-bit encoding of this range.
    pub open spec fn spec_bits(self) -> u8 {
        match self {
            GyroRange::D250 => 0,
            GyroRange::D500 => 1,
            GyroRange::D1000 => 2,
            GyroRange::D2000 => 3,
        }
    }

    /// The range encoded by the two low bits of `b`; bits above the field
    /// are ignored.
    pub open spec fn spec_from_bits(b: u8) -> GyroRange {
        let v = b & 0x03;
        if v == 0 {
            GyroRange::D250
        } else if v == 1 {
            GyroRange::D500
        } else if v == 2 {
            GyroRange::D1000
        } else {
            GyroRange::D2000
        }
    }

    pub fn bits(self) -> (b: u8)
        ensures
            b == self.spec_bits(),
    {
        match self {
            GyroRange::D250 => 0,
            GyroRange::D500 => 1,
            GyroRange::D1000 => 2,
            GyroRange::D2000 => 3,
        }
    }

    pub fn from_bits(b: u8) -> (r: GyroRange)
        ensures
            r == GyroRange::spec_from_bits(b),
    {
        let v: u8 = b & 0x03;
        if v == 0 {
            GyroRange::D250
        } else if v == 1 {
            GyroRange::D500
        } else if v == 2 {
            GyroRange::D1000
        } else {
            GyroRange::D2000
        }
    }
}

/// Power management register 1: clock selection and power state.
#[derive(Clone, Copy, Debug, PartialEq, Eq, Structural)]
pub struct PwrMgmt1 {
    pub clksel: ClockSource,
    pub temp_dis: bool,
    pub cycle: bool,
    pub sleep: bool,
    pub device_reset: bool,
}

impl PwrMgmt1 {
    /// The all-zero configuration: internal oscillator, everything clear.
    pub open spec fn spec_default() -> PwrMgmt1 {
        PwrMgmt1 {
            clksel: ClockSource::Internal8MHz,
            temp_dis: false,
            cycle: false,
            sleep: false,
            device_reset: false,
        }
    }

    /// The byte this configuration encodes to. The reserved bit 4 is always
    /// emitted as zero.
    pub open spec fn spec_encode(self) -> u8 {
        self.clksel.spec_bits() | (if self.temp_dis {
            0x08u8
        } else {
            0x00u8
        }) | (if self.cycle {
            0x20u8
        } else {
            0x00u8
        }) | (if self.sleep {
            0x40u8
        } else {
            0x00u8
        }) | (if self.device_reset {
            0x80u8
        } else {
            0x00u8
        })
    }

    /// The configuration a byte decodes to; the reserved bit 4 is ignored.
    pub open spec fn spec_decode(b: u8) -> PwrMgmt1 {
        PwrMgmt1 {
            clksel: ClockSource::spec_from_bits(b),
            temp_dis: (b >> 3) & 0x01 == 1,
            cycle: (b >> 5) & 0x01 == 1,
            sleep: (b >> 6) & 0x01 == 1,
            device_reset: (b >> 7) & 0x01 == 1,
        }
    }

    pub fn new() -> (r: PwrMgmt1)
        ensures
            r == PwrMgmt1::spec_default(),
    {
        PwrMgmt1 {
            clksel: ClockSource::Internal8MHz,
            temp_dis: false,
            cycle: false,
            sleep: false,
            device_reset: false,
        }
    }

    pub fn with_clksel(self, clksel: ClockSource) -> (r: PwrMgmt1)
        ensures
            r == (PwrMgmt1 { clksel, ..self }),
    {
        PwrMgmt1 { clksel, ..self }
    }

    pub fn with_temp_dis(self, temp_dis: bool) -> (r: PwrMgmt1)
        ensures
            r == (PwrMgmt1 { temp_dis, ..self }),
    {
        PwrMgmt1 { temp_dis, ..self }
    }

    pub fn with_cycle(self, cycle: bool) -> (r: PwrMgmt1)
        ensures
            r == (PwrMgmt1 { cycle, ..self }),
    {
        PwrMgmt1 { cycle, ..self }
    }

    pub fn with_sleep(self, sleep: bool) -> (r: PwrMgmt1)
        ensures
            r == (PwrMgmt1 { sleep, ..self }),
    {
        PwrMgmt1 { sleep, ..self }
    }

    pub fn with_device_reset(self, device_reset: bool) -> (r: PwrMgmt1)
        ensures
            r == (PwrMgmt1 { device_reset, ..self }),
    {
        PwrMgmt1 { device_reset, ..self }
    }

    /// The raw byte written to the device.
    pub fn encode(self) -> (b: u8)
        ensures
            b == self.spec_encode(),
    {
        self.clksel.bits() | (if self.temp_dis {
            0x08u8
        } else {
            0x00u8
        }) | (if self.cycle {
            0x20u8
        } else {
            0x00u8
        }) | (if self.sleep {
            0x40u8
        } else {
            0x00u8
        }) | (if self.device_reset {
            0x80u8
        } else {
            0x00u8
        })
    }

    pub fn decode(b: u8) -> (r: PwrMgmt1)
        ensures
            r == PwrMgmt1::spec_decode(b),
    {
        PwrMgmt1 {
            clksel: ClockSource::from_bits(b),
            temp_dis: (b >> 3) & 0x01 == 1,
            cycle: (b >> 5) & 0x01 == 1,
            sleep: (b >> 6) & 0x01 == 1,
            device_reset: (b >> 7) & 0x01 == 1,
        }
    }
}

impl Default for PwrMgmt1 {
    fn default() -> (r: PwrMgmt1)
        ensures
            r == PwrMgmt1::spec_default(),
    {
        PwrMgmt1::new()
    }
}

/// Accelerometer configuration register: full-scale range and self-test.
#[derive(Clone, Copy, Debug, PartialEq, Eq, Structural)]
pub struct AccelConfig {
    pub afs_sel: AccelRange,
    pub za_st: bool,
    pub ya_st: bool,
    pub xa_st: bool,
}

impl AccelConfig {
    /// The all-zero configuration: +-2g, self-test off on every axis.
    pub open spec fn spec_default() -> AccelConfig {
        AccelConfig { afs_sel: AccelRange::G2, za_st: false, ya_st: false, xa_st: false }
    }

    /// The byte this configuration encodes to. The reserved bits 0-2 are
    /// always emitted as zero.
    pub open spec fn spec_encode(self) -> u8 {
        (self.afs_sel.spec_bits() << 3) | (if self.za_st {
            0x20u8
        } else {
            0x00u8
        }) | (if self.ya_st {
            0x40u8
        } else {
            0x00u8
        }) | (if self.xa_st {
            0x80u8
        } else {
            0x00u8
        })
    }

    /// The configuration a byte decodes to; the reserved bits 0-2 are
    /// ignored.
    pub open spec fn spec_decode(b: u8) -> AccelConfig {
        AccelConfig {
            afs_sel: AccelRange::spec_from_bits(b >> 3),
            za_st: (b >> 5) & 0x01 == 1,
            ya_st: (b >> 6) & 0x01 == 1,
            xa_st: (b >> 7) & 0x01 == 1,
        }
    }

    pub fn new() -> (r: AccelConfig)
        ensures
            r == AccelConfig::spec_default(),
    {
        AccelConfig { afs_sel: AccelRange::G2, za_st: false, ya_st: false, xa_st: false }
    }

    pub fn with_afs_sel(self, afs_sel: AccelRange) -> (r: AccelConfig)
        ensures
            r == (AccelConfig { afs_sel, ..self }),
    {
        AccelConfig { afs_sel, ..self }
    }

    pub fn with_za_st(self, za_st: bool) -> (r: AccelConfig)
        ensures
            r == (AccelConfig { za_st, ..self }),
    {
        AccelConfig { za_st, ..self }
    }

    pub fn with_ya_st(self, ya_st: bool) -> (r: AccelConfig)
        ensures
            r == (AccelConfig { ya_st, ..self }),
    {
        AccelConfig { ya_st, ..self }
    }

    pub fn with_xa_st(self, xa_st: bool) -> (r: AccelConfig)
        ensures
            r == (AccelConfig { xa_st, ..self }),
    {
        AccelConfig { xa_st, ..self }
    }

    /// The raw byte written to the device.
    pub fn encode(self) -> (b: u8)
        ensures
            b == self.spec_encode(),
    {
        (self.afs_sel.bits() << 3) | (if self.za_st {
            0x20u8
        } else {
            0x00u8
        }) | (if self.ya_st {
            0x40u8
        } else {
            0x00u8
        }) | (if self.xa_st {
            0x80u8
        } else {
            0x00u8
        })
    }

    pub fn decode(b: u8) -> (r: AccelConfig)
        ensures
            r == AccelConfig::spec_decode(b),
    {
        AccelConfig {
            afs_sel: AccelRange::from_bits(b >> 3),
            za_st: (b >> 5) & 0x01 == 1,
            ya_st: (b >> 6) & 0x01 == 1,
            xa_st: (b >> 7) & 0x01 == 1,
        }
    }
}

impl Default for AccelConfig {
    fn default() -> (r: AccelConfig)
        ensures
            r == AccelConfig::spec_default(),
    {
        AccelConfig::new()
    }
}

/// Gyroscope configuration register: full-scale range and self-test.
#[derive(Clone, Copy, Debug, PartialEq, Eq, Structural)]
pub struct GyroConfig {
    pub fs_sel: GyroRange,
    pub zg_st: bool,
    pub yg_st: bool,
    pub xg_st: bool,
}

impl GyroConfig {
    /// The all-zero configuration: +-250 deg/s, self-test off on every axis.
    pub open spec fn spec_default() -> GyroConfig {
        GyroConfig { fs_sel: GyroRange::D250, zg_st: false, yg_st: false, xg_st: false }
    }

    /// The byte this configuration encodes to. The reserved bits 0-2 are
    /// always emitted as zero.
    pub open spec fn spec_encode(self) -> u8 {
        (self.fs_sel.spec_bits() << 3) | (if self.zg_st {
            0x20u8
        } else {
            0x00u8
        }) | (if self.yg_st {
            0x40u8
        } else {
            0x00u8
        }) | (if self.xg_st {
            0x80u8
        } else {
            0x00u8
        })
    }

    /// The configuration a byte decodes to; the reserved bits 0-2 are
    /// ignored.
    pub open spec fn spec_decode(b: u8) -> GyroConfig {
        GyroConfig {
            fs_sel: GyroRange::spec_from_bits(b >> 3),
            zg_st: (b >> 5) & 0x01 == 1,
            yg_st: (b >> 6) & 0x01 == 1,
            xg_st: (b >> 7) & 0x01 == 1,
        }
    }

    pub fn new() -> (r: GyroConfig)
        ensures
            r == GyroConfig::spec_default(),
    {
        GyroConfig { fs_sel: GyroRange::D250, zg_st: false, yg_st: false, xg_st: false }
    }

    pub fn with_fs_sel(self, fs_sel: GyroRange) -> (r: GyroConfig)
        ensures
            r == (GyroConfig { fs_sel, ..self }),
    {
        GyroConfig { fs_sel, ..self }
    }

    pub fn with_zg_st(self, zg_st: bool) -> (r: GyroConfig)
        ensures
            r == (GyroConfig { zg_st, ..self }),
    {
        GyroConfig { zg_st, ..self }
    }

    pub fn with_yg_st(self, yg_st: bool) -> (r: GyroConfig)
        ensures
            r == (GyroConfig { yg_st, ..self }),
    {
        GyroConfig { yg_st, ..self }
    }

    pub fn with_xg_st(self, xg_st: bool) -> (r: GyroConfig)
        ensures
            r == (GyroConfig { xg_st, ..self }),
    {
        GyroConfig { xg_st, ..self }
    }

    /// The raw byte written to the device.
    pub fn encode(self) -> (b: u8)
        ensures
            b == self.spec_encode(),
    {
        (self.fs_sel.bits() << 3) | (if self.zg_st {
            0x20u8
        } else {
            0x00u8
        }) | (if self.yg_st {
            0x40u8
        } else {
            0x00u8
        }) | (if self.xg_st {
            0x80u8
        } else {
            0x00u8
        })
    }

    pub fn decode(b: u8) -> (r: GyroConfig)
        ensures
            r == GyroConfig::spec_decode(b),
    {
        GyroConfig {
            fs_sel: GyroRange::from_bits(b >> 3),
            zg_st: (b >> 5) & 0x01 == 1,
            yg_st: (b >> 6) & 0x01 == 1,
            xg_st: (b >> 7) & 0x01 == 1,
        }
    }
}

impl Default for GyroConfig {
    fn default() -> (r: GyroConfig)
        ensures
            r == GyroConfig::spec_default(),
    {
        GyroConfig::new()
    }
}

/// Law: decoding inverts encoding for every representable field assignment
/// of power management 1.
pub proof fn lemma_pwr_mgmt1_round_trip(x: PwrMgmt1)
    ensures
        PwrMgmt1::spec_decode(x.spec_encode()) == x,
{
    let c: u8 = x.clksel.spec_bits();
    let t: u8 = if x.temp_dis {
        0x08
    } else {
        0x00
    };
    let cy: u8 = if x.cycle {
        0x20
    } else {
        0x00
    };
    let s: u8 = if x.sleep {
        0x40
    } else {
        0x00
    };
    let d: u8 = if x.device_reset {
        0x80
    } else {
        0x00
    };
    let e: u8 = c | t | cy | s | d;
    assert(x.spec_encode() == e);
    assert((e & 0x07) == c && ((e >> 3) & 0x01 == 1) == (t == 0x08) && ((e >> 5) & 0x01 == 1) == (
    cy == 0x20) && ((e >> 6) & 0x01 == 1) == (s == 0x40) && ((e >> 7) & 0x01 == 1) == (d
        == 0x80)) by (bit_vector)
        requires
            e == (c | t | cy | s | d),
            c <= 7,
            t == 0x08 || t == 0x00,
            cy == 0x20 || cy == 0x00,
            s == 0x40 || s == 0x00,
            d == 0x80 || d == 0x00,
    ;
    assert(ClockSource::spec_from_bits(e) == x.clksel);
}

/// Law: decoding inverts encoding for every representable field assignment
/// of the accelerometer configuration.
pub proof fn lemma_accel_config_round_trip(x: AccelConfig)
    ensures
        AccelConfig::spec_decode(x.spec_encode()) == x,
{
    let f: u8 = x.afs_sel.spec_bits();
    let z: u8 = if x.za_st {
        0x20
    } else {
        0x00
    };
    let y: u8 = if x.ya_st {
        0x40
    } else {
        0x00
    };
    let xa: u8 = if x.xa_st {
        0x80
    } else {
        0x00
    };
    let e: u8 = (f << 3) | z | y | xa;
    assert(x.spec_encode() == e);
    assert(((e >> 3) & 0x03) == f && ((e >> 5) & 0x01 == 1) == (z == 0x20) && ((e >> 6) & 0x01
        == 1) == (y == 0x40) && ((e >> 7) & 0x01 == 1) == (xa == 0x80)) by (bit_vector)
        requires
            e == ((f << 3) | z | y | xa),
            f <= 3,
            z == 0x20 || z == 0x00,
            y == 0x40 || y == 0x00,
            xa == 0x80 || xa == 0x00,
    ;
    assert(AccelRange::spec_from_bits(e >> 3) == x.afs_sel);
}

/// Law: decoding inverts encoding for every representable field assignment
/// of the gyroscope configuration.
pub proof fn lemma_gyro_config_round_trip(x: GyroConfig)
    ensures
        GyroConfig::spec_decode(x.spec_encode()) == x,
{
    let f: u8 = x.fs_sel.spec_bits();
    let z: u8 = if x.zg_st {
        0x20
    } else {
        0x00
    };
    let y: u8 = if x.yg_st {
        0x40
    } else {
        0x00
    };
    let xg: u8 = if x.xg_st {
        0x80
    } else {
        0x00
    };
    let e: u8 = (f << 3) | z | y | xg;
    assert(x.spec_encode() == e);
    assert(((e >> 3) & 0x03) == f && ((e >> 5) & 0x01 == 1) == (z == 0x20) && ((e >> 6) & 0x01
        == 1) == (y == 0x40) && ((e >> 7) & 0x01 == 1) == (xg == 0x80)) by (bit_vector)
        requires
            e == ((f << 3) | z | y | xg),
            f <= 3,
            z == 0x20 || z == 0x00,
            y == 0x40 || y == 0x00,
            xg == 0x80 || xg == 0x00,
    ;
    assert(GyroRange::spec_from_bits(e >> 3) == x.fs_sel);
}

} // verus!
