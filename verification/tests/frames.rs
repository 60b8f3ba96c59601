use nav_simulator::frames::FrameAssembler;
use nav_simulator::util::Report;

fn sat(id: u8, frame: u64, payload: &'static str) -> Report<&'static str, &'static str> {
    Report::Satellite { id, frame, payload }
}

fn car(frame: u64, payload: &'static str) -> Report<&'static str, &'static str> {
    Report::Vehicle { frame, payload }
}

#[test]
fn frame_is_ready_after_three_satellites_and_vehicle() {
    let mut a = FrameAssembler::new();
    assert!(a.receive(sat(1, 7, "s1")).is_none());
    assert!(a.receive(sat(2, 7, "s2")).is_none());
    assert!(a.receive(sat(3, 7, "s3")).is_none());
    let r = a.receive(car(7, "c")).expect("frame 7 is complete");
    assert_eq!(r.frame, 7);
    assert_eq!(r.vehicle, "c");
    assert_eq!(r.satellites.len(), 3);
    assert_eq!(r.satellites.get(&1), Some(&"s1"));
    assert_eq!(r.satellites.get(&2), Some(&"s2"));
    assert_eq!(r.satellites.get(&3), Some(&"s3"));
}

#[test]
fn vehicle_first_then_satellites() {
    let mut a = FrameAssembler::new();
    assert!(a.receive(car(3, "c")).is_none());
    assert!(a.receive(sat(9, 3, "a")).is_none());
    assert!(a.receive(sat(8, 3, "b")).is_none());
    let r = a.receive(sat(7, 3, "c7")).expect("frame 3 is complete");
    assert_eq!(r.frame, 3);
    assert_eq!(r.satellites.len(), 3);
}

#[test]
fn repeated_satellite_replaces_and_does_not_count() {
    let mut a = FrameAssembler::new();
    assert!(a.receive(car(1, "c")).is_none());
    assert!(a.receive(sat(1, 1, "old")).is_none());
    assert!(a.receive(sat(1, 1, "new")).is_none());
    assert!(a.receive(sat(2, 1, "x")).is_none());
    let r = a.receive(sat(3, 1, "y")).expect("frame 1 is complete");
    assert_eq!(r.satellites.get(&1), Some(&"new"));
}

#[test]
fn repeated_vehicle_report_replaces_earlier() {
    let mut a = FrameAssembler::new();
    assert!(a.receive(car(4, "first")).is_none());
    assert!(a.receive(car(4, "second")).is_none());
    assert!(a.receive(sat(1, 4, "a")).is_none());
    assert!(a.receive(sat(2, 4, "b")).is_none());
    let r = a.receive(sat(3, 4, "c")).expect("frame 4 is complete");
    assert_eq!(r.vehicle, "second");
}

#[test]
fn frames_do_not_mix() {
    let mut a = FrameAssembler::new();
    assert!(a.receive(sat(1, 1, "a")).is_none());
    assert!(a.receive(sat(2, 2, "b")).is_none());
    assert!(a.receive(sat(3, 1, "c")).is_none());
    assert!(a.receive(car(2, "car2")).is_none());
    assert!(a.receive(sat(2, 1, "d")).is_none());
    let r = a.receive(car(1, "car1")).expect("frame 1 is complete");
    assert_eq!(r.frame, 1);
    assert_eq!(r.vehicle, "car1");
    assert_eq!(r.satellites.get(&2), Some(&"d"));
}

#[test]
fn handed_out_frame_is_forgotten() {
    let mut a = FrameAssembler::new();
    a.receive(sat(1, 5, "a"));
    a.receive(sat(2, 5, "b"));
    a.receive(sat(3, 5, "c"));
    assert!(a.receive(car(5, "c")).is_some());
    assert!(a.receive(car(5, "again")).is_none());
    assert!(a.receive(sat(1, 5, "a")).is_none());
}

#[test]
fn fourth_satellite_blocks_the_frame() {
    let mut a = FrameAssembler::new();
    a.receive(sat(1, 5, "a"));
    a.receive(sat(2, 5, "b"));
    a.receive(sat(3, 5, "c"));
    a.receive(sat(4, 5, "d"));
    assert!(a.receive(car(5, "c")).is_none());
}
