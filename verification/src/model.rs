//! The physical brewery: one vessel with a sensor at the top and one at the
//! bottom.
use crate::sensor::TempSensor;
use vstd::prelude::*;

verus! {

/// The single vessel (mash tun and boil kettle with basket insert).
pub struct Vessel {
    pub top_temp_sensor: TempSensor,
    pub bottom_temp_sensor: TempSensor,
}

/// Top-level brewery definition.
pub struct Brewery {
    pub vessel: Vessel,
}

impl Brewery {
    /// The development brewery, with test sensors at the top and bottom of
    /// its vessel.
    pub fn new() -> (r: Brewery)
        ensures
            r.vessel.top_temp_sensor matches TempSensor::Ds18b20 { address } && address@
                == "test_top"@,
            r.vessel.bottom_temp_sensor matches TempSensor::Ds18b20 { address } && address@
                == "test_bottom"@,
    {
        let vessel = Vessel {
            top_temp_sensor: TempSensor::Ds18b20 { address: "test_top".to_owned() },
            bottom_temp_sensor: TempSensor::Ds18b20 { address: "test_bottom".to_owned() },
        };
        Brewery { vessel }
    }
}

} // verus!
