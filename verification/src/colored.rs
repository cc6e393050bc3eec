//! The multi-band colored-noise (pink-noise) approximation.
//!
//! Five bands each hold a running contribution. Per call, one uniform draw
//! selects the first band whose threshold exceeds it; that band's
//! contribution is replaced by a second, signed draw scaled by the band's
//! gain, and the running accumulator is adjusted by the difference. The
//! output is the accumulator compressed by an arithmetic right shift of 16
//! bits. Autocorrelated per-band contributions approximate 1/f spectral
//! shaping cheaply; updating a single band per call amortizes the cost.

use vstd::prelude::*;

verus! {

/// Number of contribution bands.
pub const BAND_COUNT: usize = 5;

/// Upper bound of a scaled uniform draw fed to the band scan.
pub const DRAW_MAX: u16 = 32767;

/// Largest magnitude a single band contribution can take:
/// `DRAW_MAX` times the largest band gain.
pub const CONTRIB_BOUND: i64 = 514966172;

/// Fixed gain of each band.
pub open spec fn band_gain(i: int) -> int {
    if i == 0 {
        14055
    } else if i == 1 {
        12759
    } else if i == 2 {
        10733
    } else if i == 3 {
        12273
    } else {
        15716
    }
}

/// Fixed, monotonically increasing threshold of each band, on the same
/// scale as a uniform draw in `[0, DRAW_MAX]`.
pub open spec fn band_threshold(i: int) -> int {
    if i == 0 {
        22347
    } else if i == 1 {
        27917
    } else if i == 2 {
        29523
    } else if i == 3 {
        29942
    } else {
        30007
    }
}

/// The band a scaled draw `u` selects: the first band in scan order whose
/// threshold exceeds `u`, or none when `u` clears every threshold.
pub open spec fn selected_band(u: int) -> Option<int> {
    if u < 22347 {
        Some(0int)
    } else if u < 27917 {
        Some(1int)
    } else if u < 29523 {
        Some(2int)
    } else if u < 29942 {
        Some(3int)
    } else if u < 30007 {
        Some(4int)
    } else {
        None
    }
}

/// The band scan picks exactly the first band whose threshold exceeds the
/// draw, and picks none exactly when the draw clears every threshold.
pub proof fn lemma_selected_band_is_first(u: int)
    requires
        0 <= u,
    ensures
        selected_band(u) matches Some(i) ==> {
            &&& 0 <= i < BAND_COUNT
            &&& u < band_threshold(i)
            &&& forall|j: int| 0 <= j < i ==> band_threshold(j) <= u
        },
        selected_band(u) is None ==> forall|j: int|
            0 <= j < BAND_COUNT ==> band_threshold(j) <= u,
{
}

/// Sum of the five band contributions.
pub open spec fn contributions_total(c: Seq<i64>) -> int
    recommends
        c.len() == BAND_COUNT,
{
    c[0] + c[1] + c[2] + c[3] + c[4]
}

/// The contribution table after one call with scaled draws `u` (band
/// selection) and `v` (new contribution value, scaled by the band's gain).
pub open spec fn step_contributions(c: Seq<i64>, u: int, v: int) -> Seq<i64> {
    match selected_band(u) {
        Some(i) => c.update(i, (v * band_gain(i)) as i64),
        None => c,
    }
}

/// The output of one call: the post-update accumulator compressed by an
/// arithmetic right shift of 16 bits.
pub open spec fn step_output(c: Seq<i64>, u: int, v: int) -> i64 {
    (contributions_total(step_contributions(c, u, v)) as i64) >> 16
}

/// The contribution table after a whole sequence of calls, one `(u, v)`
/// draw pair per call.
pub open spec fn run_contributions(c: Seq<i64>, draws: Seq<(int, int)>) -> Seq<i64>
    decreases draws.len(),
{
    if draws.len() == 0 {
        c
    } else {
        run_contributions(step_contributions(c, draws[0].0, draws[0].1), draws.drop_first())
    }
}

/// The output sequence of a whole run, one output per draw pair.
pub open spec fn run_outputs(c: Seq<i64>, draws: Seq<(int, int)>) -> Seq<i64>
    decreases draws.len(),
{
    if draws.len() == 0 {
        Seq::empty()
    } else {
        seq![step_output(c, draws[0].0, draws[0].1)].add(
            run_outputs(step_contributions(c, draws[0].0, draws[0].1), draws.drop_first()),
        )
    }
}

/// Whether every draw pair of a run lies in the generator's admitted
/// ranges: the band draw in `[0, DRAW_MAX]`, the value draw in
/// `[-DRAW_MAX, DRAW_MAX]`.
pub open spec fn in_draw_ranges(draws: Seq<(int, int)>) -> bool {
    forall|i: int|
        0 <= i < draws.len() ==> 0 <= (#[trigger] draws[i]).0 <= DRAW_MAX && -(DRAW_MAX as int)
            <= draws[i].1 <= DRAW_MAX as int
}

/// Extending a run by one draw pair steps the final state once and appends
/// that step's output.
pub proof fn lemma_colored_run_snoc(c: Seq<i64>, draws: Seq<(int, int)>, u: int, v: int)
    ensures
        run_contributions(c, draws.push((u, v))) == step_contributions(
            run_contributions(c, draws),
            u,
            v,
        ),
        run_outputs(c, draws.push((u, v))) == run_outputs(c, draws).push(
            step_output(run_contributions(c, draws), u, v),
        ),
    decreases draws.len(),
{
    if draws.len() == 0 {
        assert(draws.push((u, v)).drop_first() =~= Seq::<(int, int)>::empty());
        reveal_with_fuel(run_contributions, 3);
        reveal_with_fuel(run_outputs, 3);
        assert(run_outputs(c, draws.push((u, v))) =~= run_outputs(c, draws).push(
            step_output(run_contributions(c, draws), u, v),
        ));
    } else {
        assert(draws.push((u, v)).drop_first() =~= draws.drop_first().push((u, v)));
        lemma_colored_run_snoc(
            step_contributions(c, draws[0].0, draws[0].1),
            draws.drop_first(),
            u,
            v,
        );
        assert(run_outputs(c, draws.push((u, v))) =~= run_outputs(c, draws).push(
            step_output(run_contributions(c, draws), u, v),
        ));
    }
}

/// Determinism: replaying an identical sequence of underlying draws from an
/// identical starting state reproduces an identical output sequence and an
/// identical final state.
pub proof fn lemma_colored_deterministic(
    c1: Seq<i64>,
    c2: Seq<i64>,
    draws1: Seq<(int, int)>,
    draws2: Seq<(int, int)>,
)
    requires
        c1 == c2,
        draws1 == draws2,
    ensures
        run_outputs(c1, draws1) == run_outputs(c2, draws2),
        run_contributions(c1, draws1) == run_contributions(c2, draws2),
{
}

/// The stateful pink-noise approximation.
pub struct ColoredNoiseGenerator {
    /// One running contribution per band; persists across calls.
    pub contributions: Vec<i64>,
    /// Running sum of the contributions.
    pub accumulator: i64,
}

impl ColoredNoiseGenerator {
    /// Well-formedness: five bounded contributions whose sum is the
    /// accumulator.
    pub open spec fn wf(self) -> bool {
        &&& self.contributions@.len() == BAND_COUNT
        &&& forall|i: int|
            0 <= i < BAND_COUNT ==> -CONTRIB_BOUND <= #[trigger] self.contributions@[i]
                <= CONTRIB_BOUND
        &&& self.accumulator == contributions_total(self.contributions@)
    }

    /// A quiet generator: every contribution, and so the accumulator, is zero.
    pub fn new() -> (r: ColoredNoiseGenerator)
        ensures
            r.wf(),
            r.contributions@ =~= seq![0i64, 0i64, 0i64, 0i64, 0i64],
            r.accumulator == 0,
    {
        ColoredNoiseGenerator { contributions: vec![0i64, 0i64, 0i64, 0i64, 0i64], accumulator: 0 }
    }

    /// One call of the generator on a scaled band-selection draw `u` and a
    /// signed value draw `v`.
    ///
    /// At most one band's contribution changes: the first whose threshold
    /// exceeds `u`. When `u` clears every threshold no band changes and the
    /// previous accumulator persists; that is not an error. The returned
    /// sample is the post-update accumulator shifted right by 16 bits.
    pub fn step(&mut self, u: u16, v: i64) -> (r: i64)
        requires
            old(self).wf(),
            u <= DRAW_MAX,
            -(DRAW_MAX as int) <= v <= DRAW_MAX as int,
        ensures
            final(self).wf(),
            final(self).contributions@ == step_contributions(
                old(self).contributions@,
                u as int,
                v as int,
            ),
            selected_band(u as int) matches Some(i) ==> final(self).contributions@[i] == v
                * band_gain(i),
            selected_band(u as int) is None ==> final(self).contributions@
                == old(self).contributions@,
            forall|j: int|
                0 <= j < BAND_COUNT && selected_band(u as int) != Some(j)
                    ==> final(self).contributions@[j] == old(self).contributions@[j],
            final(self).accumulator == contributions_total(final(self).contributions@),
            r == step_output(old(self).contributions@, u as int, v as int),
            r == final(self).accumulator >> 16,
    {
        let band = select_band(u);
        match band {
            Some(i) => {
                proof {
                    assert(v * band_gain(i as int) <= CONTRIB_BOUND && -CONTRIB_BOUND <= v
                        * band_gain(i as int)) by (nonlinear_arith)
                        requires
                            -32767 <= v <= 32767,
                            1 <= band_gain(i as int) <= 15716,
                            CONTRIB_BOUND == 514966172,
                    ;
                }
                let gain = band_gain_at(i);
                let fresh: i64 = v * gain;
                self.accumulator = self.accumulator - self.contributions[i];
                self.contributions[i] = fresh;
                self.accumulator = self.accumulator + fresh;
            },
            None => {},
        }
        self.accumulator >> 16
    }
}

/// The first band whose threshold exceeds the scaled draw `u`, scanned in
/// fixed order.
fn select_band(u: u16) -> (r: Option<usize>)
    ensures
        r matches Some(i) ==> Some(i as int) == selected_band(u as int),
        r is None ==> selected_band(u as int) is None,
{
    if u < 22347 {
        Some(0)
    } else if u < 27917 {
        Some(1)
    } else if u < 29523 {
        Some(2)
    } else if u < 29942 {
        Some(3)
    } else if u < 30007 {
        Some(4)
    } else {
        None
    }
}

/// Exec table of the fixed band gains.
fn band_gain_at(i: usize) -> (r: i64)
    requires
        i < BAND_COUNT,
    ensures
        r == band_gain(i as int),
{
    if i == 0 {
        14055
    } else if i == 1 {
        12759
    } else if i == 2 {
        10733
    } else if i == 3 {
        12273
    } else {
        15716
    }
}

} // verus!
