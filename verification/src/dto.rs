//! The values that are published: status and configuration as a reader of
//! the service sees them, derived frequencies included.

use crate::config::GpsdoConfig;
use crate::status::GpsdoStatus;
use vstd::prelude::*;

verus! {

/// The drive current in mA that the level code `level` stands for: 8, 16, 24
/// and 32 for the codes 0 to 3, and 0 for every other code.
pub open spec fn drive_current_ma(level: u8) -> u8 {
    if level == 0 {
        8
    } else if level == 1 {
        16
    } else if level == 2 {
        24
    } else if level == 3 {
        32
    } else {
        0
    }
}

/// Maps a level code to its drive current in mA. A code that the device
/// does not define gives 0, never an error.
pub fn drive_current(level: u8) -> (current: u8)
    ensures
        current == drive_current_ma(level),
        level <= 3 ==> current == 8 * (level + 1),
        level > 3 ==> current == 0,
{
    match level {
        0 => 8,
        1 => 16,
        2 => 24,
        3 => 32,
        _ => 0,
    }
}

/// Lock status as it is published.
#[derive(Debug)]
pub struct LockStatusResponse {
    /// Number of times the lock was lost since the device started.
    pub loss_count: u8,
    /// Whether the receiver is locked to the satellites.
    pub sat_lock: bool,
    /// Whether the PLL is locked to the configured frequencies.
    pub pll_lock: bool,
    /// Whether the device as a whole is locked.
    pub locked: bool,
}

impl From<GpsdoStatus> for LockStatusResponse {
    fn from(value: GpsdoStatus) -> (response: Self) {
        LockStatusResponse {
            loss_count: value.loss_count(),
            sat_lock: value.sat_locked(),
            pll_lock: value.pll_locked(),
            locked: value.locked(),
        }
    }
}

impl vstd::std_specs::convert::FromSpecImpl<GpsdoStatus> for LockStatusResponse {
    open spec fn obeys_from_spec() -> bool {
        true
    }

    open spec fn from_spec(value: GpsdoStatus) -> Self {
        LockStatusResponse {
            loss_count: value@.loss_count as u8,
            sat_lock: value@.sat_lock,
            pll_lock: value@.pll_lock,
            locked: value@.locked,
        }
    }
}

/// The PLL's parameters as they are published, with the two frequencies
/// inside the loop.
#[derive(Debug)]
pub struct PllParamsResponse {
    /// Reference input frequency in Hz.
    pub fin: u32,
    /// Divider of the reference input.
    pub n3: u32,
    /// High-speed divider of the feedback path.
    pub n2_hs: u16,
    /// Low-speed divider of the feedback path.
    pub n2_ls: u32,
    /// High-speed divider shared by both outputs.
    pub n1_hs: u16,
    /// Low-speed divider of output 1.
    pub nc1_ls: u32,
    /// Low-speed divider of output 2.
    pub nc2_ls: u32,
    /// Code of the skew between the two outputs.
    pub skew: u8,
    /// Code of the PLL bandwidth mode.
    pub bw: u8,
    /// Frequency at the phase detector.
    pub f3: u32,
    /// Frequency of the PLL's oscillator.
    pub fosc: u64,
}

impl From<GpsdoConfig> for PllParamsResponse {
    fn from(value: GpsdoConfig) -> (response: Self) {
        PllParamsResponse {
            fin: value.fin(),
            n3: value.n3(),
            n2_hs: value.n2_hs(),
            n2_ls: value.n2_ls(),
            n1_hs: value.n1_hs(),
            nc1_ls: value.nc1_ls(),
            nc2_ls: value.nc2_ls(),
            skew: value.skew(),
            bw: value.bw(),
            f3: value.f3(),
            fosc: value.fosc(),
        }
    }
}

impl vstd::std_specs::convert::FromSpecImpl<GpsdoConfig> for PllParamsResponse {
    open spec fn obeys_from_spec() -> bool {
        true
    }

    open spec fn from_spec(value: GpsdoConfig) -> Self {
        PllParamsResponse {
            fin: value@.fin as u32,
            n3: value@.n3 as u32,
            n2_hs: value@.n2_hs as u16,
            n2_ls: value@.n2_ls as u32,
            n1_hs: value@.n1_hs as u16,
            nc1_ls: value@.nc1_ls as u32,
            nc2_ls: value@.nc2_ls as u32,
            skew: value@.skew,
            bw: value@.bw,
            f3: value@.f3() as u32,
            fosc: value@.fosc() as u64,
        }
    }
}

/// The configuration as it is published, with the drive level in mA and the
/// two output frequencies.
#[derive(Debug)]
pub struct ConfigResponse {
    /// Whether output 1 is enabled.
    pub output1: bool,
    /// Whether output 2 is enabled.
    pub output2: bool,
    /// Drive current of the outputs in mA.
    pub level: u8,
    /// The PLL's parameters.
    pub pll_params: PllParamsResponse,
    /// Frequency at output 1.
    pub fout1: u64,
    /// Frequency at output 2.
    pub fout2: u64,
}

impl From<GpsdoConfig> for ConfigResponse {
    fn from(value: GpsdoConfig) -> (response: Self) {
        let output1 = value.output1();
        let output2 = value.output2();
        let level: u8 = drive_current(value.level());
        let fout1: u64 = value.fout1();
        let fout2: u64 = value.fout2();
        ConfigResponse {
            output1,
            output2,
            level,
            fout1,
            fout2,
            pll_params: PllParamsResponse::from(value),
        }
    }
}

impl vstd::std_specs::convert::FromSpecImpl<GpsdoConfig> for ConfigResponse {
    open spec fn obeys_from_spec() -> bool {
        true
    }

    open spec fn from_spec(value: GpsdoConfig) -> Self {
        ConfigResponse {
            output1: value@.output1,
            output2: value@.output2,
            level: drive_current_ma(value@.level),
            pll_params: <PllParamsResponse as vstd::std_specs::convert::FromSpec<
                GpsdoConfig,
            >>::from_spec(value),
            fout1: value@.fout1() as u64,
            fout2: value@.fout2() as u64,
        }
    }
}

} // verus!
