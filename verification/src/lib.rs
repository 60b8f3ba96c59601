//! Decision logic of a small navigation simulator: orbit classes, controller
//! gains, waypoint guidance of a ground vehicle, and the assembly of telemetry
//! frames for trilateration. All floating-point physics lives outside this
//! library; what stays here is stated and proved.
pub mod frames;
pub mod satellite;
pub mod util;
pub mod vehicle;

pub use satellite::orbit::Orbit;
