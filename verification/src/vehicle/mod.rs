pub mod controller;

use vstd::prelude::*;

verus! {

/// What one guidance update did.
#[derive(Clone, Copy, Debug, PartialEq, Eq, Structural)]
pub enum StepOutcome {
    /// The route was never started: nothing changed.
    NotInitialized,
    /// Every waypoint has been reached: the route is marked complete.
    RouteComplete,
    /// The current waypoint is within reach: guidance moves on to the next one.
    WaypointReached,
    /// The vehicle moved but its fuel ran out: the clock does not advance.
    OutOfFuel,
    /// The vehicle moved towards the current waypoint and the clock advanced.
    Advanced,
}

/// The abstract state of the waypoint guidance of a vehicle.
pub struct GuidanceView<P> {
    pub waypoints: Seq<P>,
    pub waypoint_idx: nat,
    pub initialized: bool,
    pub complete: bool,
    pub frame: nat,
}

impl<P> GuidanceView<P> {
    /// The state every guidance value keeps: the waypoint being steered to is
    /// at most one past the last waypoint, and only a started route can be complete.
    pub open spec fn wf(self) -> bool {
        &&& self.waypoint_idx <= self.waypoints.len()
        &&& self.complete ==> self.initialized
    }

    /// The waypoint that guidance steers to, if the route is started and not
    /// yet exhausted.
    pub open spec fn target(self) -> Option<P> {
        if self.initialized && self.waypoint_idx < self.waypoints.len() {
            Some(self.waypoints[self.waypoint_idx as int])
        } else {
            None
        }
    }

    /// The state after a waypoint is appended to the route.
    pub open spec fn with_waypoint(self, p: P) -> Self {
        GuidanceView { waypoints: self.waypoints.push(p), ..self }
    }

    /// The state after starting the route: a route without waypoints cannot
    /// be started and stays as it is.
    pub open spec fn started(self) -> Self {
        if self.waypoints.len() == 0 {
            self
        } else {
            GuidanceView { initialized: true, complete: false, ..self }
        }
    }

    /// One guidance update. `reached` says whether the current waypoint is
    /// within reach; `fuel_exhausted` whether the fuel ran out while moving
    /// towards it. Each is looked at only where the update gets that far.
    pub open spec fn stepped(self, reached: bool, fuel_exhausted: bool) -> (Self, StepOutcome) {
        if !self.initialized {
            (self, StepOutcome::NotInitialized)
        } else if self.waypoint_idx >= self.waypoints.len() {
            (GuidanceView { complete: true, ..self }, StepOutcome::RouteComplete)
        } else if reached {
            (GuidanceView { waypoint_idx: self.waypoint_idx + 1, ..self }, StepOutcome::WaypointReached)
        } else if fuel_exhausted {
            (self, StepOutcome::OutOfFuel)
        } else {
            (GuidanceView { frame: self.frame + 1, ..self }, StepOutcome::Advanced)
        }
    }
}

/// Waypoint guidance of a vehicle: the route, the waypoint being steered to,
/// whether the route was started and completed, and the frame counter that
/// advances with each completed motion step. A waypoint is any value `P`.
pub struct Guidance<P> {
    waypoints: Vec<P>,
    waypoint_idx: usize,
    initialized: bool,
    complete: bool,
    frame: u64,
}

impl<P> View for Guidance<P> {
    type V = GuidanceView<P>;

    closed spec fn view(&self) -> GuidanceView<P> {
        GuidanceView {
            waypoints: self.waypoints@,
            waypoint_idx: self.waypoint_idx as nat,
            initialized: self.initialized,
            complete: self.complete,
            frame: self.frame as nat,
        }
    }
}

impl<P> Guidance<P> {
    /// A guidance with no waypoints, not started.
    pub fn new() -> (g: Self)
        ensures
            g@.waypoints == Seq::<P>::empty(),
            g@.waypoint_idx == 0,
            !g@.initialized,
            !g@.complete,
            g@.frame == 0,
            g@.wf(),
    {
        Guidance { waypoints: Vec::new(), waypoint_idx: 0, initialized: false, complete: false, frame: 0 }
    }

    /// The route, in the order the waypoints were added.
    pub fn waypoints(&self) -> (w: &Vec<P>)
        ensures
            w@ == self@.waypoints,
    {
        &self.waypoints
    }

    /// The index of the waypoint being steered to.
    pub fn waypoint_index(&self) -> (i: usize)
        ensures
            i == self@.waypoint_idx,
    {
        self.waypoint_idx
    }

    /// Whether the route was started.
    pub fn initialized(&self) -> (b: bool)
        ensures
            b == self@.initialized,
    {
        self.initialized
    }

    /// Whether the route was found complete.
    pub fn complete(&self) -> (b: bool)
        ensures
            b == self@.complete,
    {
        self.complete
    }

    /// The number of motion steps completed.
    pub fn frame(&self) -> (f: u64)
        ensures
            f == self@.frame,
    {
        self.frame
    }

    /// Appends a waypoint to the route.
    pub fn add_waypoint(&mut self, p: P)
        requires
            old(self)@.wf(),
        ensures
            final(self)@ == old(self)@.with_waypoint(p),
            final(self)@.wf(),
            final(self)@.waypoints == old(self)@.waypoints.push(p),
            final(self)@.waypoint_idx == old(self)@.waypoint_idx,
            final(self)@.initialized == old(self)@.initialized,
            final(self)@.complete == old(self)@.complete,
            final(self)@.frame == old(self)@.frame,
    {
        self.waypoints.push(p);
    }

    /// Starts the route; a route without waypoints cannot be started and is
    /// left as it is.
    pub fn initialize(&mut self)
        requires
            old(self)@.wf(),
        ensures
            final(self)@ == old(self)@.started(),
            final(self)@.wf(),
            final(self)@.waypoints == old(self)@.waypoints,
            final(self)@.waypoint_idx == old(self)@.waypoint_idx,
            final(self)@.frame == old(self)@.frame,
            old(self)@.waypoints.len() > 0 ==> final(self)@.initialized && !final(self)@.complete,
            old(self)@.waypoints.len() == 0 ==> final(self)@ == old(self)@,
    {
        if self.waypoints.len() == 0 {
            return;
        }
        self.initialized = true;
        self.complete = false;
    }

    /// The waypoint to steer to: present exactly when the route is started
    /// and some waypoint is still ahead.
    pub fn target(&self) -> (t: Option<&P>)
        requires
            self@.wf(),
        ensures
            t is None <==> self@.target() is None,
            t matches Some(p) ==> self@.target() == Some(*p),
    {
        if self.initialized && self.waypoint_idx < self.waypoints.len() {
            Some(&self.waypoints[self.waypoint_idx])
        } else {
            None
        }
    }

    /// One guidance update, given whether the current waypoint is within reach
    /// and whether the fuel ran out while moving towards it. An update that
    /// advances needs room in the frame counter.
    pub fn step(&mut self, reached: bool, fuel_exhausted: bool) -> (out: StepOutcome)
        requires
            old(self)@.wf(),
            old(self)@.stepped(reached, fuel_exhausted).1 == StepOutcome::Advanced ==> old(self)@.frame
                < u64::MAX,
        ensures
            (final(self)@, out) == old(self)@.stepped(reached, fuel_exhausted),
            final(self)@.wf(),
            update_law(old(self)@, reached, fuel_exhausted, final(self)@, out),
    {
        if !self.initialized {
            return StepOutcome::NotInitialized;
        }
        if self.waypoint_idx >= self.waypoints.len() {
            self.complete = true;
            return StepOutcome::RouteComplete;
        }
        if reached {
            self.waypoint_idx = self.waypoint_idx + 1;
            return StepOutcome::WaypointReached;
        }
        if fuel_exhausted {
            return StepOutcome::OutOfFuel;
        }
        self.frame = self.frame + 1;
        StepOutcome::Advanced
    }
}

/// The state after `k` updates in each of which the current waypoint is
/// within reach.
pub open spec fn reach_waypoints<P>(s: GuidanceView<P>, k: nat) -> GuidanceView<P>
    decreases k,
{
    if k == 0 {
        s
    } else {
        reach_waypoints(s.stepped(true, false).0, (k - 1) as nat)
    }
}

/// Before the route is started, an update changes nothing and says so.
pub proof fn lemma_unstarted_update_is_noop<P>(s: GuidanceView<P>, reached: bool, fuel_exhausted: bool)
    requires
        !s.initialized,
    ensures
        s.stepped(reached, fuel_exhausted) == (s, StepOutcome::NotInitialized),
{
}

/// An update keeps the guidance well formed, never changes the route or
/// whether it was started, never un-completes it, moves on by exactly one
/// waypoint when and only when it reports a reached waypoint, and advances the
/// frame counter by exactly one when and only when it reports an advance.
pub proof fn lemma_update_progress<P>(s: GuidanceView<P>, reached: bool, fuel_exhausted: bool)
    requires
        s.wf(),
    ensures
        ({
            let (t, out) = s.stepped(reached, fuel_exhausted);
            &&& t.wf()
            &&& t.waypoints == s.waypoints
            &&& t.initialized == s.initialized
            &&& s.complete ==> t.complete
            &&& (out == StepOutcome::WaypointReached ==> t.waypoint_idx == s.waypoint_idx + 1)
            &&& (out != StepOutcome::WaypointReached ==> t.waypoint_idx == s.waypoint_idx)
            &&& (out == StepOutcome::Advanced ==> t.frame == s.frame + 1)
            &&& (out != StepOutcome::Advanced ==> t.frame == s.frame)
        }),
{
}

/// Running out of fuel neither advances the clock nor moves guidance on.
pub proof fn lemma_out_of_fuel_holds_state<P>(s: GuidanceView<P>)
    requires
        s.wf(),
        s.target() is Some,
    ensures
        s.stepped(false, true) == (s, StepOutcome::OutOfFuel),
{
}

/// Once every waypoint is reached, the next update marks the route complete,
/// and every later update leaves it exactly so.
pub proof fn lemma_completion_is_stable<P>(
    s: GuidanceView<P>,
    r1: bool,
    e1: bool,
    r2: bool,
    e2: bool,
)
    requires
        s.wf(),
        s.initialized,
        s.waypoint_idx == s.waypoints.len(),
    ensures
        ({
            let (t, out) = s.stepped(r1, e1);
            &&& out == StepOutcome::RouteComplete
            &&& t.complete
            &&& t.target() is None
            &&& t.stepped(r2, e2) == (t, StepOutcome::RouteComplete)
        }),
{
}

/// Starting a route that was never started steers to its first waypoint.
pub proof fn lemma_start_targets_first_waypoint<P>(s: GuidanceView<P>)
    requires
        s.wf(),
        !s.initialized,
        s.waypoint_idx == 0,
        s.waypoints.len() > 0,
    ensures
        s.started().initialized,
        !s.started().complete,
        s.started().target() == Some(s.waypoints[0]),
{
}

/// A started route whose waypoints are each reached in turn visits every one
/// of them in order, takes one update per remaining waypoint without
/// advancing the frame, and then completes on the next update.
pub proof fn lemma_route_traversal<P>(s: GuidanceView<P>)
    requires
        s.wf(),
        s.initialized,
    ensures
        ({
            let k = (s.waypoints.len() - s.waypoint_idx) as nat;
            let t = reach_waypoints(s, k);
            &&& t.waypoint_idx == t.waypoints.len()
            &&& t.waypoints == s.waypoints
            &&& t.frame == s.frame
            &&& t.initialized
            &&& t.stepped(true, false).1 == StepOutcome::RouteComplete
            &&& t.stepped(true, false).0.complete
        }),
    decreases s.waypoints.len() - s.waypoint_idx,
{
    let k = (s.waypoints.len() - s.waypoint_idx) as nat;
    if k > 0 {
        let n = s.stepped(true, false).0;
        lemma_route_traversal(n);
        assert(reach_waypoints(s, k) == reach_waypoints(n, (k - 1) as nat));
    }
}

/// Each of the `k` reached-waypoint updates of `reach_waypoints`, taken from a
/// started route with at least `k` waypoints ahead, reaches the waypoint at
/// the index it had before.
pub proof fn lemma_reach_visits_in_order<P>(s: GuidanceView<P>, k: nat, j: nat)
    requires
        s.wf(),
        s.initialized,
        j < k,
        s.waypoint_idx + k <= s.waypoints.len(),
    ensures
        reach_waypoints(s, j).target() == Some(s.waypoints[(s.waypoint_idx + j) as int]),
        reach_waypoints(s, j).stepped(true, false).1 == StepOutcome::WaypointReached,
    decreases j,
{
    if j > 0 {
        let n = s.stepped(true, false).0;
        lemma_reach_visits_in_order(n, (k - 1) as nat, (j - 1) as nat);
    }
}

/// What an update does, stated over the fields of the states before (`s`) and
/// after (`t`) and the reported outcome: which outcome is reported in which
/// situation, and that the route and whether it was started never change, the
/// route is marked complete only by an update that finds no waypoint ahead and
/// stays marked, the waypoint index moves on by one only on a reached waypoint,
/// and the frame counter moves on by one only on an advance.
pub open spec fn update_law<P>(
    s: GuidanceView<P>,
    reached: bool,
    fuel_exhausted: bool,
    t: GuidanceView<P>,
    out: StepOutcome,
) -> bool {
    let ahead = s.initialized && s.waypoint_idx < s.waypoints.len();
    &&& (out == StepOutcome::NotInitialized <==> !s.initialized)
    &&& (out == StepOutcome::RouteComplete <==> s.initialized && s.waypoint_idx >= s.waypoints.len())
    &&& (out == StepOutcome::WaypointReached <==> ahead && reached)
    &&& (out == StepOutcome::OutOfFuel <==> ahead && !reached && fuel_exhausted)
    &&& (out == StepOutcome::Advanced <==> ahead && !reached && !fuel_exhausted)
    &&& t.waypoints == s.waypoints
    &&& t.initialized == s.initialized
    &&& t.complete == (s.complete || out == StepOutcome::RouteComplete)
    &&& t.waypoint_idx == s.waypoint_idx + (if out == StepOutcome::WaypointReached {
        1int
    } else {
        0int
    })
    &&& t.frame == s.frame + (if out == StepOutcome::Advanced {
        1int
    } else {
        0int
    })
}

/// Every update obeys `update_law`: in particular only an update reporting
/// `RouteComplete` (one that finds no waypoint ahead) can mark the route
/// complete, and every other update leaves the complete flag as it was.
pub proof fn lemma_update_law<P>(s: GuidanceView<P>, reached: bool, fuel_exhausted: bool)
    ensures
        ({
            let (t, out) = s.stepped(reached, fuel_exhausted);
            &&& update_law(s, reached, fuel_exhausted, t, out)
            &&& (out != StepOutcome::RouteComplete ==> t.complete == s.complete)
            &&& (!s.complete && t.complete ==> s.waypoint_idx >= s.waypoints.len())
        }),
{
}

/// While a waypoint is still ahead, no update marks the route complete,
/// whatever it observes.
pub proof fn lemma_no_completion_with_waypoint_ahead<P>(
    s: GuidanceView<P>,
    reached: bool,
    fuel_exhausted: bool,
)
    requires
        s.initialized,
        s.waypoint_idx < s.waypoints.len(),
    ensures
        s.stepped(reached, fuel_exhausted).0.complete == s.complete,
        s.stepped(reached, fuel_exhausted).1 != StepOutcome::RouteComplete,
{
}

/// Starting a route that has waypoints, whether or not it was started or
/// completed before, leaves it started and not complete, and keeps the
/// route, the waypoint index and the frame counter; starting a route without
/// waypoints changes nothing.
pub proof fn lemma_start<P>(s: GuidanceView<P>)
    ensures
        s.waypoints.len() > 0 ==> s.started().initialized && !s.started().complete,
        s.waypoints.len() == 0 ==> s.started() == s,
        s.started().waypoints == s.waypoints,
        s.started().waypoint_idx == s.waypoint_idx,
        s.started().frame == s.frame,
{
}

/// Adding a waypoint appends it at the end of the route and changes nothing
/// else: the earlier waypoints keep their positions, and the waypoint being
/// steered to stays the same.
pub proof fn lemma_add_waypoint_appends<P>(s: GuidanceView<P>, p: P)
    requires
        s.wf(),
    ensures
        s.with_waypoint(p).waypoints.len() == s.waypoints.len() + 1,
        s.with_waypoint(p).waypoints.last() == p,
        forall|i: int|
            0 <= i < s.waypoints.len() ==> #[trigger] s.with_waypoint(p).waypoints[i] == s.waypoints[i],
        s.with_waypoint(p).waypoint_idx == s.waypoint_idx,
        s.with_waypoint(p).initialized == s.initialized,
        s.with_waypoint(p).complete == s.complete,
        s.with_waypoint(p).frame == s.frame,
        s.target() is Some ==> s.with_waypoint(p).target() == s.target(),
{
}

} // verus!
