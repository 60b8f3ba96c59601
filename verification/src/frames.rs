use std::collections::HashMap;
use vstd::prelude::*;

use crate::util::Report;

verus! {

broadcast use vstd::std_specs::hash::group_hash_axioms;

/// The number of distinct satellites whose reports make a frame complete.
pub open spec fn satellites_per_frame() -> nat {
    3
}

/// The abstract state of frame assembly: for each frame, the latest report of
/// each satellite, and the latest vehicle report.
#[verifier::ext_equal]
pub struct FramesView<S, V> {
    pub satellites: Map<u64, Map<u8, S>>,
    pub vehicles: Map<u64, V>,
}

impl<S, V> FramesView<S, V> {
    /// The satellite reports held for a frame (none if the frame is unknown).
    pub open spec fn satellites_of(self, frame: u64) -> Map<u8, S> {
        if self.satellites.contains_key(frame) {
            self.satellites[frame]
        } else {
            Map::empty()
        }
    }

    /// The state after a report is filed: a satellite report replaces any
    /// earlier one of the same satellite in the same frame, and a vehicle report
    /// replaces any earlier vehicle report of the same frame.
    pub open spec fn filed(self, report: Report<S, V>) -> Self {
        match report {
            Report::Satellite { id, frame, payload } => FramesView {
                satellites: self.satellites.insert(frame, self.satellites_of(frame).insert(id, payload)),
                vehicles: self.vehicles,
            },
            Report::Vehicle { frame, payload } => FramesView {
                satellites: self.satellites,
                vehicles: self.vehicles.insert(frame, payload),
            },
        }
    }

    /// Whether a frame holds reports of exactly three satellites and a vehicle report.
    pub open spec fn is_ready(self, frame: u64) -> bool {
        &&& self.satellites.contains_key(frame)
        &&& self.satellites[frame].len() == satellites_per_frame()
        &&& self.vehicles.contains_key(frame)
    }

    /// The state with everything held for a frame dropped.
    pub open spec fn without(self, frame: u64) -> Self {
        FramesView { satellites: self.satellites.remove(frame), vehicles: self.vehicles.remove(frame) }
    }

    /// Every frame holds finitely many satellite reports, and no frame that is
    /// ready is still held: a frame is handed out as soon as it is complete.
    pub open spec fn wf(self) -> bool {
        &&& forall|f: u64| #[trigger] self.satellites.contains_key(f) ==> self.satellites[f].dom().finite()
        &&& forall|f: u64| !(#[trigger] self.is_ready(f))
    }
}

/// A complete frame: the reports of its three satellites, keyed by
/// satellite id, and its vehicle report.
pub struct ReadyFrame<S, V> {
    pub frame: u64,
    pub satellites: HashMap<u8, S>,
    pub vehicle: V,
}

/// Collects telemetry reports by frame until a frame holds the reports of
/// three satellites and of the vehicle, then hands that frame out.
pub struct FrameAssembler<S, V> {
    satellites: HashMap<u64, HashMap<u8, S>>,
    vehicles: HashMap<u64, V>,
}

impl<S, V> View for FrameAssembler<S, V> {
    type V = FramesView<S, V>;

    closed spec fn view(&self) -> FramesView<S, V> {
        FramesView {
            satellites: Map::new(
                |f: u64| self.satellites@.contains_key(f),
                |f: u64| self.satellites@[f]@,
            ),
            vehicles: self.vehicles@,
        }
    }
}

impl<S, V> FrameAssembler<S, V> {
    /// An assembler holding no reports.
    pub fn new() -> (a: Self)
        ensures
            a@.satellites == Map::<u64, Map<u8, S>>::empty(),
            a@.vehicles == Map::<u64, V>::empty(),
            a@.wf(),
    {
        let a = FrameAssembler { satellites: HashMap::new(), vehicles: HashMap::new() };
        assert(a@.satellites =~= Map::<u64, Map<u8, S>>::empty());
        a
    }

    /// Files a report; if its frame is then complete, the frame is removed
    /// and returned, and otherwise nothing is returned.
    pub fn receive(&mut self, report: Report<S, V>) -> (ready: Option<ReadyFrame<S, V>>)
        requires
            old(self)@.wf(),
        ensures
            final(self)@.wf(),
            ({
                let f = report.spec_frame();
                let after = old(self)@.filed(report);
                if after.is_ready(f) {
                    &&& final(self)@ == after.without(f)
                    &&& ready matches Some(r) && r.frame == f && r.satellites@ == after.satellites[f]
                        && r.satellites@.len() == satellites_per_frame() && r.vehicle == after.vehicles[f]
                } else {
                    &&& final(self)@ == after
                    &&& ready is None
                }
            }),
    {
        let ghost before = self@;
        let frame = report.frame();
        match report {
            Report::Satellite { id, frame, payload } => {
                let mut inner = match self.satellites.remove(&frame) {
                    Some(m) => m,
                    None => HashMap::new(),
                };
                inner.insert(id, payload);
                self.satellites.insert(frame, inner);
                assert(self@.satellites =~= before.satellites.insert(
                    frame,
                    before.satellites_of(frame).insert(id, payload),
                ));
            },
            Report::Vehicle { frame, payload } => {
                self.vehicles.insert(frame, payload);
                assert(self@.satellites =~= before.satellites);
            },
        }
        assert(self@ =~= before.filed(report));
        let complete = match self.satellites.get(&frame) {
            Some(m) => m.len() == 3,
            None => false,
        } && self.vehicles.contains_key(&frame);
        proof {
            assert forall|g: u64| g != frame implies !(#[trigger] self@.is_ready(g)) by {
                assert(!before.is_ready(g));
            }
        }
        if !complete {
            return None;
        }
        let ghost after = self@;
        let satellites = match self.satellites.remove(&frame) {
            Some(m) => m,
            None => { return None; },
        };
        let vehicle = match self.vehicles.remove(&frame) {
            Some(v) => v,
            None => { return None; },
        };
        assert(self@.satellites =~= after.satellites.remove(frame));
        assert(self@ =~= after.without(frame));
        assert forall|g: u64| !(#[trigger] self@.is_ready(g)) by {
            if g != frame {
                assert(!after.is_ready(g));
            }
        }
        Some(ReadyFrame { frame, satellites, vehicle })
    }
}

/// A repeated report of a satellite for a frame replaces the earlier one and
/// does not count as another satellite.
pub proof fn lemma_repeated_satellite_not_counted_twice<S, V>(
    v: FramesView<S, V>,
    id: u8,
    frame: u64,
    payload: S,
)
    requires
        v.wf(),
        v.satellites_of(frame).contains_key(id),
    ensures
        v.filed(Report::Satellite { id, frame, payload }).satellites_of(frame).len()
            == v.satellites_of(frame).len(),
        v.filed(Report::Satellite { id, frame, payload }).satellites_of(frame)[id] == payload,
{
    assert(v.satellites.contains_key(frame));
    assert(v.satellites_of(frame).insert(id, payload).dom() =~= v.satellites_of(frame).dom());
}

/// Filing a report, and handing out its frame, leaves every other frame as it was.
pub proof fn lemma_other_frames_untouched<S, V>(v: FramesView<S, V>, report: Report<S, V>, g: u64)
    requires
        g != report.spec_frame(),
    ensures
        v.filed(report).satellites_of(g) == v.satellites_of(g),
        v.filed(report).satellites.contains_key(g) == v.satellites.contains_key(g),
        v.filed(report).vehicles.contains_key(g) == v.vehicles.contains_key(g),
        v.filed(report).vehicles.contains_key(g) ==> v.filed(report).vehicles[g] == v.vehicles[g],
        v.filed(report).without(report.spec_frame()).satellites_of(g) == v.satellites_of(g),
        v.filed(report).without(report.spec_frame()).vehicles.contains_key(g)
            == v.vehicles.contains_key(g),
{
}

/// Reports may arrive in any order: filing two reports that do not replace
/// one another gives the same state whichever comes first.
pub proof fn lemma_filing_order_irrelevant<S, V>(
    v: FramesView<S, V>,
    r1: Report<S, V>,
    r2: Report<S, V>,
)
    requires
        !(r1 is Vehicle && r2 is Vehicle && r1.spec_frame() == r2.spec_frame()),
        !(r1 matches Report::Satellite { id: i1, frame: f1, .. } && r2 matches Report::Satellite {
            id: i2,
            frame: f2,
            ..
        } && i1 == i2 && f1 == f2),
    ensures
        v.filed(r1).filed(r2) == v.filed(r2).filed(r1),
{
    let a = v.filed(r1).filed(r2);
    let b = v.filed(r2).filed(r1);
    match (r1, r2) {
        (Report::Satellite { id: i1, frame: f1, .. }, Report::Satellite { id: i2, frame: f2, .. }) => {
            if f1 == f2 {
                assert(a.satellites_of(f1) =~= b.satellites_of(f1));
            }
            assert(a.satellites =~= b.satellites);
        },
        (Report::Vehicle { .. }, Report::Vehicle { .. }) => {
            assert(a.vehicles =~= b.vehicles);
        },
        _ => {},
    }
    assert(a =~= b);
}

/// A frame of which nothing is held becomes ready exactly when its vehicle
/// report and the reports of three distinct satellites have all been filed,
/// whether the vehicle report comes last or first, and not before.
pub proof fn lemma_frame_completes<S, V>(
    v: FramesView<S, V>,
    frame: u64,
    ids: (u8, u8, u8),
    sats: (S, S, S),
    car: V,
)
    requires
        v.wf(),
        !v.satellites.contains_key(frame),
        !v.vehicles.contains_key(frame),
        ids.0 != ids.1,
        ids.0 != ids.2,
        ids.1 != ids.2,
    ensures
        ({
            let s0 = Report::<S, V>::Satellite { id: ids.0, frame, payload: sats.0 };
            let s1 = Report::<S, V>::Satellite { id: ids.1, frame, payload: sats.1 };
            let s2 = Report::<S, V>::Satellite { id: ids.2, frame, payload: sats.2 };
            let c = Report::<S, V>::Vehicle { frame, payload: car };
            let a1 = v.filed(s0);
            let a2 = a1.filed(s1);
            let a3 = a2.filed(s2);
            let b1 = v.filed(c);
            let b2 = b1.filed(s0);
            let b3 = b2.filed(s1);
            &&& !a1.is_ready(frame) && !a2.is_ready(frame) && !a3.is_ready(frame)
            &&& a3.filed(c).is_ready(frame)
            &&& !b1.is_ready(frame) && !b2.is_ready(frame) && !b3.is_ready(frame)
            &&& b3.filed(s2).is_ready(frame)
            &&& a3.filed(c).satellites[frame] == map![ids.0 => sats.0, ids.1 => sats.1, ids.2 => sats.2]
            &&& a3.filed(c).vehicles[frame] == car
        }),
{
    let m0 = Map::<u8, S>::empty().insert(ids.0, sats.0);
    let m1 = m0.insert(ids.1, sats.1);
    let m2 = m1.insert(ids.2, sats.2);
    assert(m0.len() == 1);
    assert(m1.len() == 2);
    assert(m2.len() == 3);
    assert(m2 =~= map![ids.0 => sats.0, ids.1 => sats.1, ids.2 => sats.2]);
    let s0 = Report::<S, V>::Satellite { id: ids.0, frame, payload: sats.0 };
    let s1 = Report::<S, V>::Satellite { id: ids.1, frame, payload: sats.1 };
    let c = Report::<S, V>::Vehicle { frame, payload: car };
    assert(v.satellites_of(frame) == Map::<u8, S>::empty());
    assert(v.filed(s0).satellites_of(frame) == m0);
    assert(v.filed(s0).filed(s1).satellites_of(frame) == m1);
    assert(v.filed(c).filed(s0).satellites_of(frame) == m0);
    assert(v.filed(c).filed(s0).filed(s1).satellites_of(frame) == m1);
}

} // verus!
