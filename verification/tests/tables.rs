use nav_simulator::vehicle::controller::ProportionalGain;
use nav_simulator::Orbit;

#[test]
fn geodedic_altitude_of_each_orbit() {
    assert_eq!(Orbit::geodedic_altitude(Orbit::LEO), 1080);
    assert_eq!(Orbit::geodedic_altitude(Orbit::MEO), 15000);
    assert_eq!(Orbit::geodedic_altitude(Orbit::GEO), 35786);
    assert_eq!(Orbit::geodedic_altitude(Orbit::HEO), 0);
}

#[test]
fn gain_of_each_setting_in_tenths() {
    assert_eq!(ProportionalGain::get_gain(ProportionalGain::Slow), 5);
    assert_eq!(ProportionalGain::get_gain(ProportionalGain::Moderate), 10);
    assert_eq!(ProportionalGain::get_gain(ProportionalGain::Aggressive), 20);
    assert_eq!(ProportionalGain::get_gain(ProportionalGain::Fast), 50);
}
