use vstd::prelude::*;

use crate::units::{state_code, DeviceSnapshot};

verus! {

/// The consumer-facing status report built from the cached snapshot.
///
/// Temperatures are in the same exact 1/36 °C fixed point as
/// `DeviceSnapshot`; humidities are integer percentages (the target
/// humidity's fraction form is `pct / 100`); both heating/cooling state
/// fields carry the consumer's mode code (off 0, heat 1, cool 2, auto 3).
#[derive(Clone, Copy, PartialEq, Eq, Structural, Debug)]
pub struct EcobeeStatus {
    pub target_heating_cooling_state: u8,
    pub target_temperature_c36: i128,
    pub target_relative_humidity_pct: u64,
    pub current_heating_cooling_state: u8,
    pub current_temperature_c36: i128,
    pub current_relative_humidity_pct: u64,
}

impl EcobeeStatus {
    /// Builds a status report; the device has a single mode, so the current
    /// and the target heating/cooling state both carry its code.
    pub fn new(mode: u8, target: i128, current: i128, humidity: u64, target_humidity: u64) -> (r:
        EcobeeStatus)
        ensures
            r == (EcobeeStatus {
                target_heating_cooling_state: mode,
                target_temperature_c36: target,
                target_relative_humidity_pct: target_humidity,
                current_heating_cooling_state: mode,
                current_temperature_c36: current,
                current_relative_humidity_pct: humidity,
            }),
    {
        EcobeeStatus {
            target_heating_cooling_state: mode,
            target_temperature_c36: target,
            target_relative_humidity_pct: target_humidity,
            current_heating_cooling_state: mode,
            current_temperature_c36: current,
            current_relative_humidity_pct: humidity,
        }
    }
}

/// The status report a cached snapshot yields.
pub open spec fn status_of_snapshot(s: DeviceSnapshot) -> EcobeeStatus {
    EcobeeStatus {
        target_heating_cooling_state: state_code(s.mode),
        target_temperature_c36: s.target_temperature_c36,
        target_relative_humidity_pct: s.target_humidity_pct,
        current_heating_cooling_state: state_code(s.mode),
        current_temperature_c36: s.current_temperature_c36,
        current_relative_humidity_pct: s.current_humidity_pct,
    }
}

/// A reply of the query façade.
#[derive(Clone, Copy, PartialEq, Eq, Structural, Debug)]
pub enum EcobeeResponse {
    Status(EcobeeStatus),
}

} // verus!
