//! Platform-agnostic wheel-tick -> volume-step logic.
//!
//! Platform backends normalize their raw HID delta into "notch units" (one
//! physical detent of the thumb wheel == 1) before feeding it here.
use crate::text::{decimal, decimal_text};
use vstd::prelude::*;

verus! {

/// One volume-key press.
#[derive(Debug, Clone, Copy, PartialEq, Eq, Structural)]
pub enum VolumeStep {
    Up,
    Down,
}

/// Why a [`WheelAccumulator`] could not be built.
#[derive(Debug, Clone, Copy, PartialEq, Eq, Structural)]
pub enum WheelConfigError {
    InvalidNotchesPerStep(i32),
    InvalidPressesPerStep(i32),
}

impl WheelConfigError {
    /// The message that describes the error.
    pub open spec fn message(self) -> Seq<char> {
        match self {
            WheelConfigError::InvalidNotchesPerStep(n) => "notches_per_step must be positive, got "@
                + decimal(n as int),
            WheelConfigError::InvalidPressesPerStep(n) =>
                "sensitivity (presses_per_step) must be positive, got "@ + decimal(n as int),
        }
    }

    /// Renders the error as text.
    pub fn to_string(&self) -> (s: String)
        ensures
            s@ == self.message(),
    {
        match self {
            WheelConfigError::InvalidNotchesPerStep(n) => {
                let mut s = String::from_str("notches_per_step must be positive, got ");
                s.append(decimal_text(*n).as_str());
                s
            },
            WheelConfigError::InvalidPressesPerStep(n) => {
                let mut s = String::from_str("sensitivity (presses_per_step) must be positive, got ");
                s.append(decimal_text(*n).as_str());
                s
            },
        }
    }
}

/// Upper bound on volume steps a single `feed()` call can emit, whatever the
/// delta or the sensitivity: a glitching device must not cause a step storm.
pub const MAX_STEPS_PER_FEED: usize = 64;

/// `i32::saturating_add`: the sum, clamped to the `i32` range.
pub assume_specification[ <i32>::saturating_add ](x: i32, y: i32) -> (r: i32)
    ensures
        r == (if x + y > i32::MAX {
            i32::MAX as int
        } else if x + y < i32::MIN {
            i32::MIN as int
        } else {
            x + y
        }),
;

/// `i32::saturating_neg`: the negation, except that `i32::MIN` gives `i32::MAX`.
pub assume_specification[ <i32>::saturating_neg ](x: i32) -> (r: i32)
    ensures
        r == (if x == i32::MIN {
            i32::MAX as int
        } else {
            -x
        }),
;

/// `x` clamped to the `i32` range.
pub open spec fn clamp_i32(x: int) -> int {
    if x > i32::MAX {
        i32::MAX as int
    } else if x < i32::MIN {
        i32::MIN as int
    } else {
        x
    }
}

/// `count` copies of `step`.
pub open spec fn repeat_step(step: VolumeStep, count: nat) -> Seq<VolumeStep> {
    Seq::new(count, |_i: int| step)
}

/// How many copies `push_capped` appends to a vector of length `len` when
/// asked for `count`: `count` (none when negative), but never past the cap.
pub open spec fn capped_count(len: int, count: int) -> nat {
    let wanted = if count < 0 { 0 } else { count };
    let room = if len >= MAX_STEPS_PER_FEED { 0 } else { MAX_STEPS_PER_FEED - len };
    (if wanted < room { wanted } else { room }) as nat
}

/// The abstract state of a [`WheelAccumulator`].
pub struct WheelState {
    pub notches_per_step: int,
    pub invert: bool,
    pub presses_per_step: int,
    pub accumulated: int,
}

impl WheelState {
    /// Positive settings, and less than one step's worth of motion pending in
    /// either direction.
    pub open spec fn wf(self) -> bool {
        &&& 0 < self.notches_per_step <= i32::MAX
        &&& 0 < self.presses_per_step <= i32::MAX
        &&& i32::MIN <= self.accumulated <= i32::MAX
        &&& -self.notches_per_step < self.accumulated < self.notches_per_step
    }

    /// The delta as the accumulator sees it: negated (saturating) when the
    /// direction is inverted.
    pub open spec fn oriented(self, delta: int) -> int {
        if self.invert {
            clamp_i32(-delta)
        } else {
            delta
        }
    }

    /// The pending motion once `delta` is added, saturated to `i32`.
    pub open spec fn pending(self, delta: int) -> int {
        clamp_i32(self.accumulated + self.oriented(delta))
    }

    /// Whole steps' worth of notches in the pending motion, signed, rounded
    /// toward zero.
    pub open spec fn crossed(self, delta: int) -> int {
        let s = self.pending(delta);
        if s >= 0 {
            s / self.notches_per_step
        } else {
            -((-s) / self.notches_per_step)
        }
    }

    /// Presses owed for the crossed notches, before the cap.
    pub open spec fn owed_presses(self, delta: int) -> int {
        let c = self.crossed(delta);
        (if c >= 0 { c } else { -c }) * self.presses_per_step
    }

    /// Whether feeding `delta` reaches the per-feed cap.
    pub open spec fn capped(self, delta: int) -> bool {
        self.owed_presses(delta) >= MAX_STEPS_PER_FEED
    }

    /// Number of steps emitted for `delta`.
    pub open spec fn step_count(self, delta: int) -> nat {
        if self.capped(delta) {
            MAX_STEPS_PER_FEED as nat
        } else {
            self.owed_presses(delta) as nat
        }
    }

    /// Direction of the steps emitted for `delta`.
    pub open spec fn direction(self, delta: int) -> VolumeStep {
        if self.crossed(delta) > 0 {
            VolumeStep::Up
        } else {
            VolumeStep::Down
        }
    }

    /// The steps emitted for `delta`, in order.
    pub open spec fn steps(self, delta: int) -> Seq<VolumeStep> {
        repeat_step(self.direction(delta), self.step_count(delta))
    }

    /// The state after feeding `delta`: the crossed notches are consumed and
    /// the remainder kept, unless the cap was reached, which drops the backlog.
    pub open spec fn after(self, delta: int) -> WheelState {
        WheelState {
            notches_per_step: self.notches_per_step,
            invert: self.invert,
            presses_per_step: self.presses_per_step,
            accumulated: if self.capped(delta) {
                0
            } else {
                self.pending(delta) - self.crossed(delta) * self.notches_per_step
            },
        }
    }
}

/// The other direction.
pub open spec fn opposite(step: VolumeStep) -> VolumeStep {
    match step {
        VolumeStep::Up => VolumeStep::Down,
        VolumeStep::Down => VolumeStep::Up,
    }
}

/// A well-formed accumulator stays well-formed whatever it is fed: less than
/// one step's worth of motion is ever left pending.
pub proof fn lemma_feed_keeps_wf(st: WheelState, delta: int)
    requires
        st.wf(),
    ensures
        st.after(delta).wf(),
{
    let n = st.notches_per_step;
    let s = st.pending(delta);
    if !st.capped(delta) {
        if s >= 0 {
            vstd::arithmetic::div_mod::lemma_fundamental_div_mod(s, n);
        } else {
            vstd::arithmetic::div_mod::lemma_fundamental_div_mod(-s, n);
            assert(s - st.crossed(delta) * n == -((-s) - ((-s) / n) * n)) by (nonlinear_arith)
                requires st.crossed(delta) == -((-s) / n);
        }
        assert(0 <= (if s >= 0 { s } else { -s }) - ((if s >= 0 { s } else { -s }) / n) * n < n) by {
            vstd::arithmetic::div_mod::lemma_fundamental_div_mod(if s >= 0 { s } else { -s }, n);
            vstd::arithmetic::div_mod::lemma_mod_pos_bound(if s >= 0 { s } else { -s }, n);
        }
    }
}

/// All the steps of one feed go the same way, and never more than the cap.
pub proof fn lemma_feed_one_direction(st: WheelState, delta: int)
    requires
        st.wf(),
    ensures
        st.steps(delta).len() <= MAX_STEPS_PER_FEED,
        forall|i: int|
            0 <= i < st.steps(delta).len() ==> #[trigger] st.steps(delta)[i] == st.steps(delta)[0],
{
}

/// Feeding nothing emits nothing and changes nothing.
pub proof fn lemma_zero_delta_is_noop(st: WheelState)
    requires
        st.wf(),
    ensures
        st.steps(0) == Seq::<VolumeStep>::empty(),
        st.after(0) == st,
{
    let n = st.notches_per_step;
    let a = st.accumulated;
    assert(st.pending(0) == a);
    if a >= 0 {
        vstd::arithmetic::div_mod::lemma_fundamental_div_mod_converse(a, n, 0, a);
    } else {
        vstd::arithmetic::div_mod::lemma_fundamental_div_mod_converse(-a, n, 0, -a);
    }
    assert(st.crossed(0) == 0);
    assert(st.steps(0) =~= Seq::<VolumeStep>::empty());
}

/// Below the cap and away from saturation no motion is lost or invented:
/// the notches consumed by the emitted steps plus what stays pending equal
/// what was pending plus the (oriented) delta, and each consumed step's
/// worth of notches yields exactly `presses_per_step` presses in its direction.
pub proof fn lemma_feed_conserves_motion(st: WheelState, delta: int)
    requires
        st.wf(),
        i32::MIN <= st.accumulated + st.oriented(delta) <= i32::MAX,
        !st.capped(delta),
    ensures
        st.after(delta).accumulated + st.crossed(delta) * st.notches_per_step
            == st.accumulated + st.oriented(delta),
        st.steps(delta).len() == (if st.crossed(delta) >= 0 {
            st.crossed(delta)
        } else {
            -st.crossed(delta)
        }) * st.presses_per_step,
        st.crossed(delta) > 0 ==> st.direction(delta) == VolumeStep::Up,
        st.crossed(delta) < 0 ==> st.direction(delta) == VolumeStep::Down,
{
    let c = st.crossed(delta);
    let p = st.presses_per_step;
    assert((if c >= 0 { c } else { -c }) * p >= 0) by (nonlinear_arith)
        requires p > 0;
}

/// Motion smaller than one step in either direction is only accumulated.
pub proof fn lemma_below_threshold_accumulates(st: WheelState, delta: int)
    requires
        st.wf(),
        -st.notches_per_step < st.accumulated + st.oriented(delta) < st.notches_per_step,
    ensures
        st.steps(delta) == Seq::<VolumeStep>::empty(),
        st.after(delta).accumulated == st.accumulated + st.oriented(delta),
{
    let n = st.notches_per_step;
    let s = st.pending(delta);
    assert(s == st.accumulated + st.oriented(delta));
    if s >= 0 {
        vstd::arithmetic::div_mod::lemma_fundamental_div_mod_converse(s, n, 0, s);
    } else {
        vstd::arithmetic::div_mod::lemma_fundamental_div_mod_converse(-s, n, 0, -s);
    }
    assert(st.crossed(delta) == 0);
    let c = st.crossed(delta);
    assert((if c >= 0 { c } else { -c }) * st.presses_per_step == 0) by (nonlinear_arith)
        requires c == 0;
    assert(st.steps(delta) =~= Seq::<VolumeStep>::empty());
}

/// Inverting the direction mirrors the accumulator: an inverted accumulator
/// holding the opposite pending motion emits the same number of steps in the
/// opposite direction and ends with the opposite remainder, as long as
/// neither the delta nor the sum saturates.
pub proof fn lemma_invert_mirrors(st: WheelState, delta: int)
    requires
        st.wf(),
        !st.invert,
        i32::MIN < delta <= i32::MAX,
        i32::MIN < st.accumulated + delta <= i32::MAX,
    ensures
        ({
            let mirrored = WheelState { invert: true, accumulated: -st.accumulated, ..st };
            &&& mirrored.wf()
            &&& mirrored.steps(delta) == st.steps(delta).map_values(|step: VolumeStep| opposite(step))
            &&& mirrored.after(delta).accumulated == -st.after(delta).accumulated
        }),
{
    let mirrored = WheelState { invert: true, accumulated: -st.accumulated, ..st };
    let n = st.notches_per_step;
    let s = st.pending(delta);
    assert(s == st.accumulated + delta);
    assert(mirrored.pending(delta) == -s);
    assert(mirrored.crossed(delta) == -st.crossed(delta));
    let c = st.crossed(delta);
    let p = st.presses_per_step;
    assert((if -c >= 0 { -c } else { c }) * p == (if c >= 0 { c } else { -c }) * p);
    assert(mirrored.owed_presses(delta) == st.owed_presses(delta));
    if c != 0 {
        assert(mirrored.steps(delta) =~= st.steps(delta).map_values(|step: VolumeStep| opposite(step)));
    } else {
        assert((if c >= 0 { c } else { -c }) * p == 0) by (nonlinear_arith)
            requires c == 0;
        assert(st.owed_presses(delta) == 0);
        assert(mirrored.steps(delta) =~= st.steps(delta).map_values(|step: VolumeStep| opposite(step)));
    }
    assert(-s - (-c) * n == -(s - c * n)) by (nonlinear_arith);
}

/// Turns notch deltas into volume steps, carrying sub-threshold motion over
/// from one call to the next.
#[derive(Debug)]
pub struct WheelAccumulator {
    notches_per_step: i32,
    invert: bool,
    /// How many volume-key presses to emit per step's worth of notches.
    presses_per_step: i32,
    accumulated: i32,
}

impl View for WheelAccumulator {
    type V = WheelState;

    closed spec fn view(&self) -> WheelState {
        WheelState {
            notches_per_step: self.notches_per_step as int,
            invert: self.invert,
            presses_per_step: self.presses_per_step as int,
            accumulated: self.accumulated as int,
        }
    }
}

impl WheelAccumulator {
    #[verifier::type_invariant]
    spec fn well_formed(self) -> bool {
        self@.wf()
    }

    /// Builds an accumulator with nothing pending; both settings must be
    /// positive, and the notch setting is checked first.
    pub fn new(notches_per_step: i32, invert: bool, presses_per_step: i32) -> (r: Result<
        Self,
        WheelConfigError,
    >)
        ensures
            notches_per_step <= 0 ==> r == Err::<Self, WheelConfigError>(
                WheelConfigError::InvalidNotchesPerStep(notches_per_step),
            ),
            notches_per_step > 0 && presses_per_step <= 0 ==> r == Err::<Self, WheelConfigError>(
                WheelConfigError::InvalidPressesPerStep(presses_per_step),
            ),
            notches_per_step > 0 && presses_per_step > 0 ==> (r matches Ok(acc) && acc@ == (
            WheelState {
                notches_per_step: notches_per_step as int,
                invert,
                presses_per_step: presses_per_step as int,
                accumulated: 0,
            })),
            r matches Ok(acc) ==> acc@.wf(),
    {
        if notches_per_step <= 0 {
            return Err(WheelConfigError::InvalidNotchesPerStep(notches_per_step));
        }
        if presses_per_step <= 0 {
            return Err(WheelConfigError::InvalidPressesPerStep(presses_per_step));
        }
        Ok(Self { notches_per_step, invert, presses_per_step, accumulated: 0 })
    }

    /// An accumulator in the same state, for holders that must not lend a
    /// field out mutably.
    pub(crate) fn duplicate(&self) -> (r: Self)
        ensures
            r@ == self@,
    {
        proof {
            use_type_invariant(self);
        }
        WheelAccumulator {
            notches_per_step: self.notches_per_step,
            invert: self.invert,
            presses_per_step: self.presses_per_step,
            accumulated: self.accumulated,
        }
    }

    /// Feeds a normalized notch delta (positive = forward). Returns the volume
    /// steps this tick produced, in order: `presses_per_step` entries per
    /// step's worth of notches, all in one direction, at most
    /// `MAX_STEPS_PER_FEED` of them.
    pub fn feed(&mut self, delta: i32) -> (steps: Vec<VolumeStep>)
        ensures
            steps@ == old(self)@.steps(delta as int),
            final(self)@ == old(self)@.after(delta as int),
            final(self)@.wf(),
            steps.len() <= MAX_STEPS_PER_FEED,
    {
        proof {
            use_type_invariant(&*self);
        }
        let ghost st = self@;
        let ghost d0 = delta as int;
        let delta = if self.invert {
            delta.saturating_neg()
        } else {
            delta
        };
        let n = self.notches_per_step;
        let p = self.presses_per_step;
        let mut accumulated = self.accumulated.saturating_add(delta);
        let ghost s = accumulated as int;
        assert(s == st.pending(d0));

        let mut steps: Vec<VolumeStep> = Vec::new();
        let ghost mut j: int = 0;
        assert(steps@ =~= repeat_step(VolumeStep::Up, capped_presses(0, p as int)));
        while accumulated >= n && steps.len() < MAX_STEPS_PER_FEED
            invariant
                0 < n,
                0 < p,
                0 <= j,
                accumulated == s - j * n,
                j > 0 ==> accumulated >= 0,
                steps@ == repeat_step(VolumeStep::Up, capped_presses(j, p as int)),
            decreases MAX_STEPS_PER_FEED - steps.len(),
        {
            proof {
                lemma_capped_presses_step(j, p as int);
                assert((j + 1) * n == j * n + n) by (nonlinear_arith);
            }
            accumulated = accumulated - n;
            push_capped(&mut steps, VolumeStep::Up, p);
            proof {
                j = j + 1;
                assert(steps@ =~= repeat_step(VolumeStep::Up, capped_presses(j, p as int)));
            }
        }
        let ghost acc1 = accumulated as int;
        let ghost len1 = steps.len() as int;
        let ghost steps1 = steps@;
        let ghost mut m: int = 0;
        while accumulated <= -n && steps.len() < MAX_STEPS_PER_FEED
            invariant
                0 < n,
                0 < p,
                0 <= m,
                0 <= j,
                accumulated == acc1 + m * n,
                m > 0 ==> accumulated <= 0,
                j > 0 ==> acc1 >= 0,
                m > 0 ==> j == 0,
                steps1 == repeat_step(VolumeStep::Up, capped_presses(j, p as int)),
                m == 0 ==> steps@ == steps1,
                m > 0 ==> steps@ == repeat_step(VolumeStep::Down, capped_presses(m, p as int)),
            decreases MAX_STEPS_PER_FEED - steps.len(),
        {
            proof {
                if m == 0 {
                    assert(m * n == 0) by (nonlinear_arith)
                        requires m == 0;
                    assert(j == 0);
                    assert(j * p == 0) by (nonlinear_arith)
                        requires j == 0;
                    assert(steps1.len() == 0);
                    assert(steps@ =~= repeat_step(VolumeStep::Down, capped_presses(0, p as int)));
                }
                lemma_capped_presses_step(m, p as int);
                assert((m + 1) * n == m * n + n) by (nonlinear_arith);
            }
            accumulated = accumulated + n;
            push_capped(&mut steps, VolumeStep::Down, p);
            proof {
                m = m + 1;
                assert(steps@ =~= repeat_step(VolumeStep::Down, capped_presses(m, p as int)));
            }
        }
        let ghost acc2 = accumulated as int;
        if steps.len() >= MAX_STEPS_PER_FEED {
            accumulated = 0;
        }
        proof {
            lemma_feed_outcome(st, d0, j, m, acc1, acc2, len1, steps.len() as int, steps1, steps@);
        }
        self.accumulated = accumulated;
        steps
    }
}

/// Presses emitted for `k` notch steps of `p` presses each, capped.
spec fn capped_presses(k: int, p: int) -> nat {
    if k * p >= MAX_STEPS_PER_FEED {
        MAX_STEPS_PER_FEED as nat
    } else {
        (k * p) as nat
    }
}

proof fn lemma_capped_presses_step(k: int, p: int)
    requires
        k >= 0,
        p > 0,
        capped_presses(k, p) < MAX_STEPS_PER_FEED,
    ensures
        k * p >= 0,
        capped_presses(k, p) + capped_count(capped_presses(k, p) as int, p) == capped_presses(k + 1, p),
{
    assert(k * p >= 0) by (nonlinear_arith)
        requires k >= 0, p > 0;
    assert((k + 1) * p == k * p + p) by (nonlinear_arith);
}

/// Connects the two loops of `feed` to the abstract outcome.
proof fn lemma_feed_outcome(
    st: WheelState,
    delta: int,
    j: int,
    m: int,
    acc1: int,
    acc2: int,
    len1: int,
    len2: int,
    steps1: Seq<VolumeStep>,
    steps: Seq<VolumeStep>,
)
    requires
        st.wf(),
        j >= 0,
        m >= 0,
        acc1 == st.pending(delta) - j * st.notches_per_step,
        j > 0 ==> acc1 >= 0,
        steps1 == repeat_step(VolumeStep::Up, capped_presses(j, st.presses_per_step)),
        len1 == steps1.len(),
        acc1 < st.notches_per_step || len1 >= MAX_STEPS_PER_FEED,
        acc2 == acc1 + m * st.notches_per_step,
        m > 0 ==> acc2 <= 0,
        m > 0 ==> j == 0,
        m == 0 ==> steps == steps1,
        m > 0 ==> steps == repeat_step(VolumeStep::Down, capped_presses(m, st.presses_per_step)),
        len2 == steps.len(),
        acc2 > -st.notches_per_step || len2 >= MAX_STEPS_PER_FEED,
    ensures
        steps == st.steps(delta),
        (len2 >= MAX_STEPS_PER_FEED) == st.capped(delta),
        (if len2 >= MAX_STEPS_PER_FEED { 0 } else { acc2 }) == st.after(delta).accumulated,
{
    let n = st.notches_per_step;
    let p = st.presses_per_step;
    let s = st.pending(delta);
    assert(j * p >= 0) by (nonlinear_arith)
        requires j >= 0, p > 0;
    assert(m * p >= 0) by (nonlinear_arith)
        requires m >= 0, p > 0;
    if m > 0 {
        assert(m * n >= n) by (nonlinear_arith)
            requires m >= 1, n > 0;
        assert(s <= -n);
        let k = (-s) / n;
        assert(st.crossed(delta) == -k);
        assert(m <= k) by (nonlinear_arith)
            requires -s >= m * n, n > 0, m >= 0, k == (-s) / n;
        assert(k * p >= m * p) by (nonlinear_arith)
            requires k >= m, p > 0;
        if len2 < MAX_STEPS_PER_FEED {
            assert(0 <= -acc2 < n);
            vstd::arithmetic::div_mod::lemma_fundamental_div_mod_converse(-s, n, m, -acc2);
            assert(k == m);
            assert(s - st.crossed(delta) * n == acc2) by (nonlinear_arith)
                requires st.crossed(delta) == -m, acc2 == s + m * n;
        }
        assert(steps =~= st.steps(delta));
    } else if j > 0 {
        assert(j * n >= n) by (nonlinear_arith)
            requires j >= 1, n > 0;
        let k = s / n;
        assert(st.crossed(delta) == k);
        assert(j <= k) by (nonlinear_arith)
            requires s >= j * n, n > 0, j >= 0, k == s / n;
        assert(k * p >= j * p) by (nonlinear_arith)
            requires k >= j, p > 0;
        if len2 < MAX_STEPS_PER_FEED {
            vstd::arithmetic::div_mod::lemma_fundamental_div_mod_converse(s, n, j, acc1);
            assert(k == j);
            assert(s - st.crossed(delta) * n == acc2);
        }
        assert(steps =~= st.steps(delta));
    } else {
        assert(-n < s < n);
        if s >= 0 {
            vstd::arithmetic::div_mod::lemma_fundamental_div_mod_converse(s, n, 0, s);
        } else {
            vstd::arithmetic::div_mod::lemma_fundamental_div_mod_converse(-s, n, 0, -s);
        }
        assert(st.crossed(delta) == 0);
        assert(steps =~= st.steps(delta));
    }
}

/// Appends up to `count` copies of `step`, never growing `steps` past
/// `MAX_STEPS_PER_FEED` whatever `count` is.
fn push_capped(steps: &mut Vec<VolumeStep>, step: VolumeStep, count: i32)
    ensures
        final(steps)@ == old(steps)@ + repeat_step(step, capped_count(old(steps).len() as int, count as int)),
{
    let ghost init = steps@;
    let room = MAX_STEPS_PER_FEED.saturating_sub(steps.len());
    let count = match usize::try_from(count) {
        Ok(c) => c,
        Err(_) => 0,
    };
    let count = if count < room { count } else { room };
    let mut i: usize = 0;
    while i < count
        invariant
            i <= count,
            steps@ == init + repeat_step(step, i as nat),
        decreases count - i,
    {
        steps.push(step);
        i = i + 1;
        assert(steps@ =~= init + repeat_step(step, i as nat));
    }
}

} // verus!
