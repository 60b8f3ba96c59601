use vstd::prelude::*;

verus! {

/// A telemetry report as the frame logic reads it: who sent it, for which
/// frame, and an opaque payload (the measured values).
#[allow(inconsistent_fields)]
pub enum Report<S, V> {
    Satellite { id: u8, frame: u64, payload: S },
    Vehicle { frame: u64, payload: V },
}

impl<S, V> Report<S, V> {
    /// The frame a report belongs to.
    pub open spec fn spec_frame(self) -> u64 {
        match self {
            Report::Satellite { frame, .. } => frame,
            Report::Vehicle { frame, .. } => frame,
        }
    }

    /// The frame a report belongs to.
    pub fn frame(&self) -> (f: u64)
        ensures
            f == self.spec_frame(),
    {
        match self {
            Report::Satellite { frame, .. } => *frame,
            Report::Vehicle { frame, .. } => *frame,
        }
    }
}

/// The number of satellite reports among the first `n` of `s`.
pub open spec fn satellites_in_prefix<S, V>(s: Seq<Report<S, V>>, n: int) -> nat
    decreases n,
{
    if n <= 0 {
        0
    } else {
        satellites_in_prefix(s, n - 1) + if s[n - 1] is Satellite {
            1nat
        } else {
            0nat
        }
    }
}

/// The number of satellite reports in `s`.
pub open spec fn satellite_count<S, V>(s: Seq<Report<S, V>>) -> nat {
    satellites_in_prefix(s, s.len() as int)
}

/// Whether `s` holds exactly three reports and all of them come from satellites.
pub open spec fn is_satellite_triple<S, V>(s: Seq<Report<S, V>>) -> bool {
    &&& s.len() == 3
    &&& s[0] is Satellite
    &&& s[1] is Satellite
    &&& s[2] is Satellite
}

/// The payload of a satellite report.
pub open spec fn satellite_payload<S, V>(r: Report<S, V>) -> S
    recommends
        r is Satellite,
{
    match r {
        Report::Satellite { payload, .. } => payload,
        Report::Vehicle { .. } => arbitrary(),
    }
}

proof fn lemma_prefix_count_bounds<S, V>(s: Seq<Report<S, V>>, n: int)
    requires
        0 <= n <= s.len(),
    ensures
        satellites_in_prefix(s, n) <= n,
        satellites_in_prefix(s, n) == n <==> (forall|i: int| 0 <= i < n ==> #[trigger] s[i] is Satellite),
        satellites_in_prefix(s, n) == 0 <==> (forall|i: int| 0 <= i < n ==> !(#[trigger] s[i] is Satellite)),
    decreases n,
{
    if n > 0 {
        lemma_prefix_count_bounds(s, n - 1);
    }
}

/// The number of satellite reports in `input`.
pub fn count_satellites<S, V>(input: &Vec<Report<S, V>>) -> (n: usize)
    ensures
        n == satellite_count(input@),
{
    let mut n: usize = 0;
    let mut i: usize = 0;
    while i < input.len()
        invariant
            i <= input.len(),
            n == satellites_in_prefix(input@, i as int),
            n <= i,
        decreases input.len() - i,
    {
        if let Report::Satellite { .. } = &input[i] {
            n = n + 1;
        }
        i = i + 1;
    }
    n
}

/// The three satellite measurements that a trilateration uses: there are
/// some exactly when `input` holds three reports, all from satellites, and
/// they are then the three payloads in order. Any other input of three
/// reports holds no satellite at all (three reports mixing satellites with
/// vehicles have no trilateration and are left out).
pub fn trilateration_triple<S, V>(input: &Vec<Report<S, V>>) -> (t: Option<(&S, &S, &S)>)
    requires
        input.len() == 3 ==> (satellite_count(input@) == 0 || satellite_count(input@) == 3),
    ensures
        t is Some <==> is_satellite_triple(input@),
        t matches Some((a, b, c)) ==> {
            &&& *a == satellite_payload(input@[0])
            &&& *b == satellite_payload(input@[1])
            &&& *c == satellite_payload(input@[2])
        },
{
    if input.len() != 3 {
        return None;
    }
    proof {
        lemma_prefix_count_bounds(input@, 3);
    }
    let mut sats: Vec<&S> = Vec::new();
    let mut i: usize = 0;
    while i < input.len()
        invariant
            input.len() == 3,
            i <= 3,
            sats@.len() == satellites_in_prefix(input@, i as int),
            (forall|k: int| 0 <= k < i ==> #[trigger] input@[k] is Satellite) ==> {
                &&& sats@.len() == i
                &&& forall|j: int| 0 <= j < i ==> *#[trigger] sats@[j] == satellite_payload(input@[j])
            },
        decreases 3 - i,
    {
        if let Report::Satellite { payload, .. } = &input[i] {
            proof {
                assert(input@[i as int] is Satellite);
            }
            sats.push(payload);
        }
        i = i + 1;
    }
    if sats.len() == 0 {
        return None;
    }
    proof {
        assert(forall|k: int| 0 <= k < 3 ==> #[trigger] input@[k] is Satellite);
    }
    Some((sats[0], sats[1], sats[2]))
}

} // verus!
