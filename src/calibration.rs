//! Search for the widest subgroup size that sorts correctly, as a state
//! machine fed with the outcome of one correctness probe per step.
use vstd::prelude::*;

verus! {

/// Number of candidate subgroup widths.
pub const LADDER_LEN: usize = 5;

/// Index of the width the search starts from (32).
pub const LADDER_START: usize = 2;

/// Keys of the correctness probe: enough for two scatter workgroups.
pub const PROBE_KEYS: usize = 512;

/// The candidate subgroup widths, ascending.
pub open spec fn ladder(i: int) -> u32 {
    if i <= 0 {
        1
    } else if i == 1 {
        16
    } else if i == 2 {
        32
    } else if i == 3 {
        64
    } else {
        128
    }
}

/// Candidate width at index `i`.
pub fn ladder_width(i: usize) -> (r: u32)
    requires
        i < LADDER_LEN,
    ensures
        r == ladder(i as int),
{
    if i == 0 {
        1
    } else if i == 1 {
        16
    } else if i == 2 {
        32
    } else if i == 3 {
        64
    } else {
        128
    }
}

/// Direction of the search.
#[derive(Clone, Copy, Debug, PartialEq, Eq, Structural)]
pub enum CalibrationState {
    /// Nothing probed yet.
    Init,
    /// The probes so far passed; trying wider.
    Increasing,
    /// The probes so far failed; trying narrower.
    Decreasing,
}

/// The search between two probes: the direction and the index of the width
/// to probe next.
#[derive(Clone, Copy, Debug, PartialEq, Eq, Structural)]
pub struct Calibrator {
    pub state: CalibrationState,
    pub index: usize,
}

/// What the search does after a probe.
#[derive(Clone, Copy, Debug, PartialEq, Eq, Structural)]
pub enum CalibrationStep {
    /// Probe the width of this search next.
    Probe(Calibrator),
    /// The search is over: use this width.
    Selected(u32),
    /// The search left the ladder: no width works on this device.
    Exhausted,
}

/// Probe index `i` in direction `state`, or give up when `i` is off the ladder.
pub open spec fn probe_at(state: CalibrationState, i: int) -> CalibrationStep {
    if 0 <= i < LADDER_LEN {
        CalibrationStep::Probe(Calibrator { state, index: i as usize })
    } else {
        CalibrationStep::Exhausted
    }
}

impl Calibrator {
    /// Index in range; a climb has a narrower width below it to fall back to.
    pub open spec fn wf(self) -> bool {
        &&& self.index < LADDER_LEN
        &&& self.state == CalibrationState::Increasing ==> self.index >= 1
    }

    /// The search before the first probe.
    pub open spec fn initial() -> Calibrator {
        Calibrator { state: CalibrationState::Init, index: LADDER_START }
    }

    /// The transition table of the search.
    pub open spec fn spec_advance(self, passed: bool) -> CalibrationStep {
        let i = self.index as int;
        match self.state {
            CalibrationState::Init => if passed {
                probe_at(CalibrationState::Increasing, i + 1)
            } else {
                probe_at(CalibrationState::Decreasing, i - 1)
            },
            CalibrationState::Increasing => if passed {
                probe_at(CalibrationState::Increasing, i + 1)
            } else {
                CalibrationStep::Selected(ladder(i - 1))
            },
            CalibrationState::Decreasing => if passed {
                CalibrationStep::Selected(ladder(i))
            } else {
                probe_at(CalibrationState::Decreasing, i - 1)
            },
        }
    }

    /// Probes the search can still make from here.
    pub open spec fn measure(self) -> nat {
        match self.state {
            CalibrationState::Init => 5,
            CalibrationState::Increasing => if self.index < 5 {
                (5 - self.index) as nat
            } else {
                0
            },
            CalibrationState::Decreasing => (self.index + 1) as nat,
        }
    }

    /// The width the search ends with when each probe of the width at index
    /// `i` passes iff `passes[i]`; `None` when it leaves the ladder. Every
    /// step lowers the measure (see `advance`); the test on it only lets
    /// the definition terminate.
    pub open spec fn outcome(self, passes: Seq<bool>) -> Option<u32>
        decreases self.measure(),
    {
        match self.spec_advance(passes[self.index as int]) {
            CalibrationStep::Probe(next) => if next.measure() < self.measure() {
                next.outcome(passes)
            } else {
                None
            },
            CalibrationStep::Selected(w) => Some(w),
            CalibrationStep::Exhausted => None,
        }
    }

    /// Starts the search at width 32.
    pub fn new() -> (r: Calibrator)
        ensures
            r == Calibrator::initial(),
            r.wf(),
    {
        Calibrator { state: CalibrationState::Init, index: LADDER_START }
    }

    /// The width to probe next.
    pub fn width(&self) -> (r: u32)
        requires
            self.wf(),
        ensures
            r == ladder(self.index as int),
    {
        ladder_width(self.index)
    }

    /// Takes the outcome of probing `self.width()` and moves the search on.
    pub fn advance(&self, passed: bool) -> (r: CalibrationStep)
        requires
            self.wf(),
        ensures
            r == self.spec_advance(passed),
            r matches CalibrationStep::Probe(next) ==> next.wf() && next.measure()
                < self.measure(),
    {
        let i = self.index;
        match self.state {
            CalibrationState::Init => {
                if passed {
                    probe_next(CalibrationState::Increasing, i + 1)
                } else if i == 0 {
                    CalibrationStep::Exhausted
                } else {
                    probe_next(CalibrationState::Decreasing, i - 1)
                }
            },
            CalibrationState::Increasing => {
                if passed {
                    probe_next(CalibrationState::Increasing, i + 1)
                } else {
                    CalibrationStep::Selected(ladder_width(i - 1))
                }
            },
            CalibrationState::Decreasing => {
                if passed {
                    CalibrationStep::Selected(ladder_width(i))
                } else if i == 0 {
                    CalibrationStep::Exhausted
                } else {
                    probe_next(CalibrationState::Decreasing, i - 1)
                }
            },
        }
    }
}

/// Probe index `i` in direction `state`, or give up past the widest width.
fn probe_next(state: CalibrationState, i: usize) -> (r: CalibrationStep)
    requires
        state == CalibrationState::Increasing ==> i >= 1,
    ensures
        r == probe_at(state, i as int),
{
    if i < LADDER_LEN {
        CalibrationStep::Probe(Calibrator { state, index: i })
    } else {
        CalibrationStep::Exhausted
    }
}

/// Runs the whole search against a table of probe outcomes, one per
/// candidate width, and returns the width it selects.
pub fn select_subgroup_size(passes: &Vec<bool>) -> (r: Option<u32>)
    requires
        passes.len() == LADDER_LEN,
    ensures
        r == Calibrator::initial().outcome(passes@),
{
    let mut cal = Calibrator::new();
    loop
        invariant
            cal.wf(),
            passes.len() == LADDER_LEN,
            cal.outcome(passes@) == Calibrator::initial().outcome(passes@),
        decreases cal.measure(),
    {
        let passed = passes[cal.index];
        match cal.advance(passed) {
            CalibrationStep::Probe(next) => {
                cal = next;
            },
            CalibrationStep::Selected(w) => {
                return Some(w);
            },
            CalibrationStep::Exhausted => {
                return None;
            },
        }
    }
}

/// Where exactly the widths up to a threshold `w` on the ladder pass, and
/// `w` is not the widest, the search selects `w`.
pub proof fn lemma_selects_largest_passing_width(w: u32, passes: Seq<bool>)
    requires
        w == 1 || w == 16 || w == 32 || w == 64,
        passes.len() == LADDER_LEN,
        forall|i: int| 0 <= i < LADDER_LEN ==> passes[i] == (ladder(i) <= w),
    ensures
        Calibrator::initial().outcome(passes) == Some(w),
{
    reveal_with_fuel(Calibrator::outcome, 6);
    assert(passes[0] == (1 <= w));
    assert(passes[1] == (16 <= w));
    assert(passes[2] == (32 <= w));
    assert(passes[3] == (64 <= w));
    assert(passes[4] == (128 <= w));
}

/// Where no width passes, the search ends without a width.
pub proof fn lemma_no_passing_width_exhausts(passes: Seq<bool>)
    requires
        passes.len() == LADDER_LEN,
        forall|i: int| 0 <= i < LADDER_LEN ==> !passes[i],
    ensures
        Calibrator::initial().outcome(passes) == None::<u32>,
{
    reveal_with_fuel(Calibrator::outcome, 6);
    assert(!passes[0] && !passes[1] && !passes[2]);
}

/// Whether the first `want.len()` keys read back equal `want`, as the
/// correctness probe requires.
pub fn sorted_prefix_matches(got: &[u32], want: &[u32]) -> (r: bool)
    ensures
        r == (want@.len() <= got@.len() && got@.subrange(0, want@.len() as int) == want@),
{
    if want.len() > got.len() {
        return false;
    }
    let mut i: usize = 0;
    while i < want.len()
        invariant
            i <= want@.len() <= got@.len(),
            got@.subrange(0, i as int) == want@.subrange(0, i as int),
        decreases want@.len() - i,
    {
        if got[i] != want[i] {
            assert(got@.subrange(0, want@.len() as int)[i as int] != want@[i as int]);
            return false;
        }
        i = i + 1;
        assert(got@.subrange(0, i as int) =~= want@.subrange(0, i as int));
    }
    assert(want@.subrange(0, i as int) =~= want@);
    true
}

} // verus!
