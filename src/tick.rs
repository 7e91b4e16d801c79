use vstd::prelude::*;

verus! {

/// Number of distinct counter values: the change-detection counter is a `u32`
/// that wraps around.
pub open spec fn counter_modulus() -> int {
    0x1_0000_0000
}

/// `a - b` taken modulo the counter's range, as the host's wrapping subtraction computes it.
pub open spec fn wrapping_diff(a: u32, b: u32) -> int {
    if a >= b {
        a - b
    } else {
        a - b + counter_modulus()
    }
}

/// The largest age, in ticks, that the host still treats as "recently run".
pub open spec fn max_age() -> int {
    3_258_167_296
}

/// A value of the host's change-detection counter.
#[derive(Clone, Copy, Debug, PartialEq, Eq, Structural)]
pub struct Tick {
    pub tick: u32,
}

impl Tick {
    pub fn new(tick: u32) -> (r: Tick)
        ensures
            r.tick == tick,
    {
        Tick { tick }
    }

    pub fn get(&self) -> (r: u32)
        ensures
            r == self.tick,
    {
        self.tick
    }

    /// How many ticks lie between `self` and the later tick `this_run`,
    /// counted modulo the counter's range.
    pub open spec fn age_at(self, this_run: Tick) -> int {
        wrapping_diff(this_run.tick, self.tick)
    }

    /// Whether `self` is still within the host's window of recent runs as seen from `this_run`.
    pub open spec fn is_recent_at(self, this_run: Tick) -> bool {
        self.age_at(this_run) <= max_age()
    }
}

/// `a - b`, wrapping around at the counter's range.
fn wrapping_sub(a: u32, b: u32) -> (r: u32)
    ensures
        r == wrapping_diff(a, b),
{
    if a >= b {
        a - b
    } else {
        ((a as u64 + 0x1_0000_0000u64) - b as u64) as u32
    }
}

/// The wrap-around correction of a stored last-run tick: where `last_run` has
/// fallen further than the maximum age behind `this_run`, it is rewound by that
/// maximum age (modulo the counter's range); otherwise it is kept.
pub open spec fn corrected_last_run(last_run: Tick, this_run: Tick) -> Tick {
    if last_run.age_at(this_run) > max_age() {
        Tick { tick: wrapping_diff(last_run.tick, max_age() as u32) as u32 }
    } else {
        last_run
    }
}

/// After the correction, the stored tick is within the host's window of recent runs.
pub proof fn lemma_correction_is_recent(last_run: Tick, this_run: Tick)
    ensures
        corrected_last_run(last_run, this_run).is_recent_at(this_run),
{
}

/// Relies on bevy's `Tick::MAX`, whose value is bevy's `MAX_CHANGE_AGE`
/// (`u32::MAX - (2 * 518_400_000 - 1)`), the oldest age its change detection keeps.
#[verifier::external_body]
fn host_max_change_age() -> (r: u32)
    ensures
        r == max_age(),
{
    bevy::ecs::component::Tick::MAX.get()
}

/// Applies the wrap-around correction to `last_run` as seen from `this_run`.
pub fn check_tick(last_run: &mut Tick, this_run: Tick)
    ensures
        *final(last_run) == corrected_last_run(*old(last_run), this_run),
        final(last_run).is_recent_at(this_run),
{
    let max = host_max_change_age();
    let age = wrapping_sub(this_run.get(), last_run.get());
    if age > max {
        *last_run = Tick::new(wrapping_sub(last_run.get(), max));
    }
    proof {
        lemma_correction_is_recent(*old(last_run), this_run);
    }
}

} // verus!
