//! USB identifiers of the supported devices.

use vstd::prelude::*;

verus! {

/// USB vendor identifier of Leo Bodnar.
pub const VID_LEO_BONDAR: u16 = 0x1dd2;

/// USB product identifier of the Leo Bodnar GPSDO with two outputs.
pub const PID_LEO_BODNAR_GPSDO: u16 = 0x2210;

/// USB product identifier of the Leo Bodnar mini GPSDO.
pub const PID_LEO_BODNAR_MINI_GPSDO: u16 = 0x2211;

} // verus!
