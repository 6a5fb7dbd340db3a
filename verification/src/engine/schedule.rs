//! Cooling schedules: their parameters and the history the adaptive one keeps.
//!
//! A schedule gives the temperature a run starts from and the rule by which it
//! falls. The rules themselves are arithmetic on binary64 numbers and belong
//! to the caller. What is decided here is which parameters a schedule accepts,
//! and what the adaptive schedule remembers of recent decisions.
use crate::engine::scalar::{is_nan_bits, rank_of, Scalar, ONE_BITS};
use vstd::prelude::*;

verus! {

/// The target acceptance ratio of the default adaptive schedule: 0.44.
pub const DEFAULT_TARGET_BITS: u64 = 0x3FDC_28F5_C28F_5C29;

/// The fastest cooling rate of the default adaptive schedule: 0.9.
pub const DEFAULT_MIN_ALPHA_BITS: u64 = 0x3FEC_CCCC_CCCC_CCCD;

/// The slowest cooling rate of the default adaptive schedule: 0.99.
pub const DEFAULT_MAX_ALPHA_BITS: u64 = 0x3FEF_AE14_7AE1_47AE;

/// The number of recent decisions the adaptive schedule remembers.
pub const DEFAULT_WINDOW_SIZE: usize = 100;

/// Strictly between 0 and 1.
pub open spec fn is_proper_fraction(x: Scalar) -> bool {
    0 < x.rank() < ONE_BITS
}

/// A geometric schedule takes a positive temperature and a rate strictly
/// between 0 and 1.
pub open spec fn geometric_params_valid(initial_temperature: Scalar, alpha: Scalar) -> bool {
    initial_temperature.rank() > 0 && is_proper_fraction(alpha)
}

/// An adaptive schedule takes a positive temperature, a target ratio strictly
/// between 0 and 1, and two rates with `0 < min_alpha < max_alpha < 1`.
pub open spec fn adaptive_params_valid(
    initial_temperature: Scalar,
    target_acceptance_ratio: Scalar,
    min_alpha: Scalar,
    max_alpha: Scalar,
) -> bool {
    &&& initial_temperature.rank() > 0
    &&& is_proper_fraction(target_acceptance_ratio)
    &&& is_proper_fraction(min_alpha)
    &&& min_alpha.rank() < max_alpha.rank() < ONE_BITS
}

/// The history after one more decision: the decision is appended, and the
/// oldest entry leaves once more than `window_size` are held.
pub open spec fn slide(history: Seq<bool>, accepted: bool, window_size: nat) -> Seq<bool> {
    let longer = history.push(accepted);
    if longer.len() > window_size {
        longer.remove(0)
    } else {
        longer
    }
}

/// How many of the decisions were acceptances.
pub open spec fn count_accepted(history: Seq<bool>) -> nat
    decreases history.len(),
{
    if history.len() == 0 {
        0
    } else {
        count_accepted(history.drop_last()) + if history.last() { 1nat } else { 0nat }
    }
}

/// The acceptance ratio of a history as a fraction, numerator first: the
/// share of acceptances among the remembered decisions, and one half while
/// nothing is remembered.
pub open spec fn ratio_terms(history: Seq<bool>) -> (nat, nat) {
    if history.len() == 0 {
        (1, 2)
    } else {
        (count_accepted(history), history.len())
    }
}

/// The rate nearest to what `raw` stands for that is neither below
/// `min_alpha` nor above `max_alpha`; `min_alpha` where `raw` is a NaN.
pub open spec fn clamp_rate(raw: u64, min_alpha: Scalar, max_alpha: Scalar) -> Scalar {
    if is_nan_bits(raw) || rank_of(raw) < min_alpha.rank() {
        min_alpha
    } else if max_alpha.rank() < rank_of(raw) {
        max_alpha
    } else {
        Scalar::of_bits(raw)
    }
}

/// The cooling rate of an adaptive schedule. `ratio_diff` is the acceptance
/// ratio less the target, and `interpolated` the bit pattern of the rate that
/// the linear rule gives for it. While the ratio is above the target the interpolated rate is
/// taken, brought into `[min_alpha, max_alpha]`; at or below the target the
/// slowest rate is taken.
pub open spec fn chosen_rate(
    params: AdaptiveParams,
    ratio_diff: Scalar,
    interpolated: u64,
) -> Scalar {
    if ratio_diff.rank() > 0 {
        clamp_rate(interpolated, params.min_alpha, params.max_alpha)
    } else {
        params.max_alpha
    }
}

/// The history is a first-in, first-out window: it never outgrows the
/// window, the newest decision is its last entry, and the older ones keep
/// their order, the oldest leaving exactly when the window was full.
pub proof fn lemma_slide_is_fifo(history: Seq<bool>, accepted: bool, window_size: nat)
    requires
        0 < window_size,
        history.len() <= window_size,
    ensures
        slide(history, accepted, window_size).len() <= window_size,
        slide(history, accepted, window_size).last() == accepted,
        history.len() < window_size ==> slide(history, accepted, window_size) == history.push(
            accepted,
        ),
        history.len() == window_size ==> slide(history, accepted, window_size)
            == history.subrange(1, history.len() as int).push(accepted),
{
    if history.len() == window_size {
        assert(history.push(accepted).remove(0) =~= history.subrange(
            1,
            history.len() as int,
        ).push(accepted));
    }
}

/// Bounds of the adaptive cooling rate: whatever was recorded and whatever
/// the linear rule gave, the chosen rate lies in `[min_alpha, max_alpha]`.
pub proof fn lemma_chosen_rate_bounded(
    params: AdaptiveParams,
    ratio_diff: Scalar,
    interpolated: u64,
)
    requires
        params.min_alpha.rank() <= params.max_alpha.rank(),
    ensures
        params.min_alpha.rank() <= chosen_rate(params, ratio_diff, interpolated).rank()
            <= params.max_alpha.rank(),
{
    Scalar::of_bits(interpolated).lemma_of_bits(interpolated);
}

/// No more acceptances than decisions.
pub proof fn lemma_count_accepted_bounded(history: Seq<bool>)
    ensures
        count_accepted(history) <= history.len(),
    decreases history.len(),
{
    if history.len() > 0 {
        lemma_count_accepted_bounded(history.drop_last());
    }
}

/// Whether `x` lies strictly between 0 and 1.
fn proper_fraction(x: &Scalar) -> (r: bool)
    ensures
        r == is_proper_fraction(*x),
{
    let one = Scalar::one();
    x.is_positive() && x.lt(&one)
}

/// Temperature falls by a constant factor `alpha` after every iteration.
#[derive(Clone, Copy, Debug)]
pub struct GeometricSchedule {
    initial_temperature: Scalar,
    alpha: Scalar,
}

impl GeometricSchedule {
    #[verifier::type_invariant]
    spec fn valid(self) -> bool {
        geometric_params_valid(self.initial_temperature, self.alpha)
    }

    /// The temperature a run starts from.
    pub closed spec fn initial_temperature(self) -> Scalar {
        self.initial_temperature
    }

    /// The factor by which the temperature falls.
    pub closed spec fn cooling_rate(self) -> Scalar {
        self.alpha
    }

    /// Whether `new` takes these parameters.
    pub fn valid_params(initial_temperature: &Scalar, alpha: &Scalar) -> (r: bool)
        ensures
            r == geometric_params_valid(*initial_temperature, *alpha),
    {
        initial_temperature.is_positive() && proper_fraction(alpha)
    }

    /// Creates the schedule. The temperature must be positive and `alpha`
    /// strictly between 0 and 1.
    pub fn new(initial_temperature: Scalar, alpha: Scalar) -> (r: Self)
        requires
            geometric_params_valid(initial_temperature, alpha),
        ensures
            r.initial_temperature() == initial_temperature,
            r.cooling_rate() == alpha,
    {
        GeometricSchedule { initial_temperature, alpha }
    }

    /// The temperature a run starts from, which is positive.
    pub fn initial_temp(&self) -> (r: Scalar)
        ensures
            r == self.initial_temperature(),
            r.rank() > 0,
    {
        proof {
            use_type_invariant(self);
        }
        self.initial_temperature
    }

    /// The factor by which the temperature falls, strictly between 0 and 1.
    pub fn alpha(&self) -> (r: Scalar)
        ensures
            r == self.cooling_rate(),
            is_proper_fraction(r),
    {
        proof {
            use_type_invariant(self);
        }
        self.alpha
    }
}

/// Temperature falls as the inverse logarithm of the iteration number: after
/// the iteration with the 0-based index `i` it is the initial temperature
/// divided by `ln(1 + i)`, except after the first, where that logarithm is 0.
#[derive(Clone, Copy, Debug)]
pub struct LogarithmicSchedule {
    initial_temperature: Scalar,
}

impl LogarithmicSchedule {
    #[verifier::type_invariant]
    spec fn valid(self) -> bool {
        self.initial_temperature.rank() > 0
    }

    /// The temperature a run starts from.
    pub closed spec fn initial_temperature(self) -> Scalar {
        self.initial_temperature
    }

    /// Creates the schedule. The temperature must be positive.
    pub fn new(initial_temperature: Scalar) -> (r: Self)
        requires
            initial_temperature.rank() > 0,
        ensures
            r.initial_temperature() == initial_temperature,
    {
        LogarithmicSchedule { initial_temperature }
    }

    /// The temperature a run starts from, which is positive.
    pub fn initial_temp(&self) -> (r: Scalar)
        ensures
            r == self.initial_temperature(),
            r.rank() > 0,
    {
        proof {
            use_type_invariant(self);
        }
        self.initial_temperature
    }

    /// The temperature after the iteration with the given 0-based index,
    /// where it takes no division: after the first iteration the temperature
    /// is still the initial one, whatever the current temperature is. After
    /// any later iteration it is the caller's quotient, and `None` is
    /// returned.
    pub fn undivided_temp(&self, iteration: usize) -> (r: Option<Scalar>)
        ensures
            r == if iteration == 0 {
                Some(self.initial_temperature())
            } else {
                None::<Scalar>
            },
            r matches Some(t) ==> t.rank() > 0,
    {
        proof {
            use_type_invariant(self);
        }
        if iteration == 0 {
            Some(self.initial_temperature)
        } else {
            None
        }
    }
}

/// The parameters of an adaptive schedule.
pub struct AdaptiveParams {
    pub initial_temperature: Scalar,
    pub target_acceptance_ratio: Scalar,
    pub min_alpha: Scalar,
    pub max_alpha: Scalar,
}

/// Temperature falls by a factor chosen from the share of recent proposals
/// that were accepted: faster while more are accepted than the target asks.
#[derive(Debug)]
pub struct AdaptiveSchedule {
    initial_temperature: Scalar,
    target_acceptance_ratio: Scalar,
    min_alpha: Scalar,
    max_alpha: Scalar,
    acceptance_history: Vec<bool>,
    window_size: usize,
}

impl Clone for AdaptiveSchedule {
    /// A copy with the same parameters and the same history.
    fn clone(&self) -> (r: Self)
        ensures
            r.params() == self.params(),
            r.history() == self.history(),
            r.window() == self.window(),
    {
        proof {
            use_type_invariant(self);
        }
        let history = self.acceptance_history.clone();
        assert(history@ =~= self.acceptance_history@);
        AdaptiveSchedule {
            initial_temperature: self.initial_temperature,
            target_acceptance_ratio: self.target_acceptance_ratio,
            min_alpha: self.min_alpha,
            max_alpha: self.max_alpha,
            acceptance_history: history,
            window_size: self.window_size,
        }
    }
}

impl AdaptiveSchedule {
    #[verifier::type_invariant]
    spec fn valid(self) -> bool {
        &&& adaptive_params_valid(
            self.initial_temperature,
            self.target_acceptance_ratio,
            self.min_alpha,
            self.max_alpha,
        )
        &&& 0 < self.window_size
        &&& self.acceptance_history@.len() <= self.window_size
    }

    /// The four numbers the schedule was made with.
    pub closed spec fn params(self) -> AdaptiveParams {
        AdaptiveParams {
            initial_temperature: self.initial_temperature,
            target_acceptance_ratio: self.target_acceptance_ratio,
            min_alpha: self.min_alpha,
            max_alpha: self.max_alpha,
        }
    }

    /// The remembered decisions, oldest first.
    pub closed spec fn history(self) -> Seq<bool> {
        self.acceptance_history@
    }

    /// How many decisions are remembered at most.
    pub closed spec fn window(self) -> nat {
        self.window_size as nat
    }

    /// Whether `with_params` takes these parameters.
    pub fn valid_params(
        initial_temperature: &Scalar,
        target_acceptance_ratio: &Scalar,
        min_alpha: &Scalar,
        max_alpha: &Scalar,
    ) -> (r: bool)
        ensures
            r == adaptive_params_valid(
                *initial_temperature,
                *target_acceptance_ratio,
                *min_alpha,
                *max_alpha,
            ),
    {
        let one = Scalar::one();
        initial_temperature.is_positive() && proper_fraction(target_acceptance_ratio)
            && proper_fraction(min_alpha) && min_alpha.lt(max_alpha) && max_alpha.lt(&one)
    }

    /// Creates the schedule with the default parameters: target ratio 0.44,
    /// rates between 0.9 and 0.99, a window of 100 decisions. The temperature
    /// must be positive.
    pub fn new(initial_temperature: Scalar) -> (r: Self)
        requires
            initial_temperature.rank() > 0,
        ensures
            r.params().initial_temperature == initial_temperature,
            r.params().target_acceptance_ratio.bits() == DEFAULT_TARGET_BITS,
            r.params().min_alpha.bits() == DEFAULT_MIN_ALPHA_BITS,
            r.params().max_alpha.bits() == DEFAULT_MAX_ALPHA_BITS,
            r.history() == Seq::<bool>::empty(),
            r.window() == DEFAULT_WINDOW_SIZE,
    {
        let target = Scalar::from_bits(DEFAULT_TARGET_BITS).unwrap();
        let min_alpha = Scalar::from_bits(DEFAULT_MIN_ALPHA_BITS).unwrap();
        let max_alpha = Scalar::from_bits(DEFAULT_MAX_ALPHA_BITS).unwrap();
        Self::with_params(initial_temperature, target, min_alpha, max_alpha)
    }

    /// Creates the schedule with an empty history and a window of 100
    /// decisions. The parameters must be valid: see [`adaptive_params_valid`].
    pub fn with_params(
        initial_temperature: Scalar,
        target_acceptance_ratio: Scalar,
        min_alpha: Scalar,
        max_alpha: Scalar,
    ) -> (r: Self)
        requires
            adaptive_params_valid(
                initial_temperature,
                target_acceptance_ratio,
                min_alpha,
                max_alpha,
            ),
        ensures
            r.params() == (AdaptiveParams {
                initial_temperature,
                target_acceptance_ratio,
                min_alpha,
                max_alpha,
            }),
            r.history() == Seq::<bool>::empty(),
            r.window() == DEFAULT_WINDOW_SIZE,
    {
        AdaptiveSchedule {
            initial_temperature,
            target_acceptance_ratio,
            min_alpha,
            max_alpha,
            acceptance_history: Vec::new(),
            window_size: DEFAULT_WINDOW_SIZE,
        }
    }

    /// Records whether a proposed move was accepted. The oldest decision is
    /// forgotten once the window is full.
    pub fn record_acceptance(&mut self, accepted: bool)
        ensures
            final(self).history() == slide(old(self).history(), accepted, old(self).window()),
            final(self).params() == old(self).params(),
            final(self).window() == old(self).window(),
            final(self).history().len() <= final(self).window(),
    {
        proof {
            use_type_invariant(&*self);
        }
        let mut history: Vec<bool> = Vec::new();
        std::mem::swap(&mut self.acceptance_history, &mut history);
        if history.len() >= self.window_size {
            history.remove(0);
        }
        history.push(accepted);
        assert(history@ =~= slide(
            old(self).acceptance_history@,
            accepted,
            old(self).window_size as nat,
        ));
        self.acceptance_history = history;
    }

    /// The acceptance ratio over the window as a fraction, numerator first:
    /// acceptances over remembered decisions, and one half while nothing is
    /// remembered. The denominator is never 0.
    pub fn acceptance_ratio(&self) -> (r: (usize, usize))
        ensures
            (r.0 as nat, r.1 as nat) == ratio_terms(self.history()),
            r.0 <= r.1,
            0 < r.1,
            self.history().len() > 0 ==> r.1 <= self.window(),
    {
        proof {
            use_type_invariant(self);
        }
        let total: usize = self.acceptance_history.len();
        if total == 0 {
            return (1, 2);
        }
        let mut accepted: usize = 0;
        let mut i: usize = 0;
        while i < total
            invariant
                i <= total,
                total == self.acceptance_history@.len(),
                accepted == count_accepted(self.acceptance_history@.take(i as int)),
                accepted <= i,
            decreases total - i,
        {
            proof {
                let prefix = self.acceptance_history@.take(i + 1);
                assert(prefix.drop_last() =~= self.acceptance_history@.take(i as int));
            }
            if self.acceptance_history[i] {
                accepted = accepted + 1;
            }
            i = i + 1;
        }
        proof {
            assert(self.acceptance_history@.take(total as int) =~= self.acceptance_history@);
        }
        (accepted, total)
    }

    /// The rate by which the temperature falls next, chosen from the two
    /// numbers that the caller's arithmetic gives: `ratio_diff`, the
    /// acceptance ratio less the target, and `interpolated`, the bit pattern
    /// of `max_alpha - (max_alpha - min_alpha) * (ratio_diff / target)`. The
    /// rate always lies in `[min_alpha, max_alpha]`.
    pub fn cooling_rate(&self, ratio_diff: Scalar, interpolated: u64) -> (r: Scalar)
        ensures
            r == chosen_rate(self.params(), ratio_diff, interpolated),
            self.params().min_alpha.rank() <= r.rank() <= self.params().max_alpha.rank(),
    {
        proof {
            use_type_invariant(self);
        }
        if !ratio_diff.is_positive() || self.max_alpha.below_bits(interpolated) {
            return self.max_alpha;
        }
        if self.min_alpha.above_bits(interpolated) {
            return self.min_alpha;
        }
        match Scalar::from_bits(interpolated) {
            Some(rate) => rate,
            None => self.min_alpha,
        }
    }

    /// The temperature a run starts from, which is positive.
    pub fn initial_temp(&self) -> (r: Scalar)
        ensures
            r == self.params().initial_temperature,
            r.rank() > 0,
    {
        proof {
            use_type_invariant(self);
        }
        self.initial_temperature
    }

    /// The acceptance ratio the schedule steers towards, strictly between 0
    /// and 1.
    pub fn target_acceptance_ratio(&self) -> (r: Scalar)
        ensures
            r == self.params().target_acceptance_ratio,
            is_proper_fraction(r),
    {
        proof {
            use_type_invariant(self);
        }
        self.target_acceptance_ratio
    }

    /// The fastest cooling rate, above 0 and below `max_alpha`.
    pub fn min_alpha(&self) -> (r: Scalar)
        ensures
            r == self.params().min_alpha,
            0 < r.rank() < self.params().max_alpha.rank(),
    {
        proof {
            use_type_invariant(self);
        }
        self.min_alpha
    }

    /// The slowest cooling rate, above `min_alpha` and below 1.
    pub fn max_alpha(&self) -> (r: Scalar)
        ensures
            r == self.params().max_alpha,
            self.params().min_alpha.rank() < r.rank() < ONE_BITS,
    {
        proof {
            use_type_invariant(self);
        }
        self.max_alpha
    }
}

} // verus!
