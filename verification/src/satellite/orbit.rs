use vstd::prelude::*;

verus! {

/// The class of circular orbit a satellite flies in.
#[derive(Clone, Copy, Debug, PartialEq, Eq, Structural)]
pub enum Orbit {
    LEO,
    MEO,
    GEO,
    HEO,
}

/// Altitude above the Earth's surface of each orbit class, in whole kilometres.
pub open spec fn spec_geodedic_altitude_km(orbit_type: Orbit) -> nat {
    match orbit_type {
        Orbit::LEO => 1080,
        Orbit::MEO => 15000,
        Orbit::GEO => 35786,
        Orbit::HEO => 0,
    }
}

impl Orbit {
    /// Altitude above the Earth's surface in kilometres. A highly elliptical
    /// orbit has no single altitude and is given as 0.
    pub fn geodedic_altitude(orbit_type: Orbit) -> (km: u32)
        ensures
            km == spec_geodedic_altitude_km(orbit_type),
    {
        match orbit_type {
            Orbit::LEO => 1080,
            Orbit::MEO => 15000,
            Orbit::GEO => 35786,
            Orbit::HEO => 0,
        }
    }
}

} // verus!
