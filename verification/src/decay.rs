//! Per-task bookkeeping: virtual runtime and the clock of the latency
//! criticality decay.
//!
//! Latency criticality itself is a real number that the runtime keeps; this
//! module decides, from the clock alone, how it decays. Under the discrete
//! decay the criticality loses its fractional part and is halved once per
//! whole half-life that has passed, and the clock advances by those whole
//! half-lives only, so the remainder carries over to the next decay. Under the
//! continuous decay the criticality is scaled by `0.5^(elapsed / half-life)`
//! and the clock jumps to the present.
use vstd::prelude::*;
use vstd::arithmetic::power2::pow2;

verus! {

/// Half-life of the latency criticality under the discrete decay, in
/// nanoseconds.
pub const HALF_LIFE_NS: u64 = 1_000_000;

/// Nanoseconds from `prev` to `now`, or 0 when `now` is not after `prev`.
pub open spec fn elapsed_ns(prev: u64, now: u64) -> nat {
    if now > prev {
        (now - prev) as nat
    } else {
        0
    }
}

/// Whole half-lives between `prev` and `now`.
pub open spec fn half_lives(prev: u64, now: u64) -> nat {
    elapsed_ns(prev, now) / (HALF_LIFE_NS as nat)
}

/// `lc` halved `n` times, rounding down: `lc / 2^n`.
pub open spec fn halved(lc: u64, n: nat) -> u64 {
    (lc as nat / pow2(n)) as u64
}

/// One discrete decay at `now` of a task whose criticality has whole part
/// `lc` and whose decay clock reads `prev`: the new whole part and the new
/// clock. Nothing changes until a whole half-life has passed.
pub open spec fn discrete_step(lc: u64, prev: u64, now: u64) -> (u64, u64) {
    let n = half_lives(prev, now);
    if n > 0 {
        (halved(lc, n), (now - elapsed_ns(prev, now) % (HALF_LIFE_NS as nat)) as u64)
    } else {
        (lc, prev)
    }
}

/// How a decay changes a task's latency criticality.
#[derive(Clone, Copy, Debug, PartialEq, Eq, Structural)]
pub enum DecayOutcome {
    /// Whole half-lives have passed: the criticality becomes this whole
    /// number.
    Truncated(u64),
    /// Not a whole half-life has passed: the criticality is left as it is.
    Unchanged,
    /// The criticality is to be scaled by `0.5^(elapsed / half-life)` for
    /// this many elapsed nanoseconds (left as it is when 0).
    Elapsed(u64),
}

/// What the scheduler remembers of a task between events.
#[derive(Clone, Copy, Debug)]
pub struct TaskMetadata {
    /// Virtual runtime: the task's weighted CPU consumption.
    pub vtime: u64,
    /// Time of the last decay of the task's latency criticality.
    pub prev_decay_ns: u64,
}

impl TaskMetadata {
    /// A task first seen at `now_ns`, starting at virtual time `vtime`.
    pub fn new(now_ns: u64, vtime: u64) -> (m: Self)
        ensures
            m.vtime == vtime,
            m.prev_decay_ns == now_ns,
    {
        TaskMetadata { vtime, prev_decay_ns: now_ns }
    }

    /// Discrete decay at `now_ns` of a criticality whose whole part is
    /// `lc_whole`. Returns the new whole criticality when at least one whole
    /// half-life has passed since the last decay, and then advances the
    /// decay clock by the whole half-lives only; otherwise changes nothing.
    pub fn discrete_decay(&mut self, lc_whole: u64, now_ns: u64) -> (r: Option<u64>)
        ensures
            final(self).vtime == old(self).vtime,
            ({
                let (lc, prev) = discrete_step(lc_whole, old(self).prev_decay_ns, now_ns);
                &&& final(self).prev_decay_ns == prev
                &&& r == if half_lives(old(self).prev_decay_ns, now_ns) > 0 {
                    Some(lc)
                } else {
                    None::<u64>
                }
            }),
            now_ns <= old(self).prev_decay_ns ==> r is None && final(self).prev_decay_ns == old(self).prev_decay_ns,
            old(self).prev_decay_ns <= now_ns ==> {
                let h = HALF_LIFE_NS as int;
                let steps = (final(self).prev_decay_ns - old(self).prev_decay_ns) / h;
                &&& old(self).prev_decay_ns <= final(self).prev_decay_ns <= now_ns
                &&& now_ns - final(self).prev_decay_ns < h
                &&& (final(self).prev_decay_ns - old(self).prev_decay_ns) % h == 0
                &&& (r is None <==> final(self).prev_decay_ns == old(self).prev_decay_ns)
                &&& r is Some ==> r == Some((lc_whole as nat / pow2(steps as nat)) as u64)
            },
    {
        proof {
            lemma_discrete_step_raw(lc_whole, self.prev_decay_ns, now_ns);
        }
        let delta_ns = now_ns.saturating_sub(self.prev_decay_ns);
        if delta_ns > 0 {
            let periods = delta_ns / HALF_LIFE_NS;
            if periods > 0 {
                let lc = if periods >= 64 {
                    0
                } else {
                    lc_whole >> periods
                };
                proof {
                    lemma_halved(lc_whole, periods as nat);
                }
                self.prev_decay_ns = now_ns - (delta_ns % HALF_LIFE_NS);
                return Some(lc);
            }
        }
        None
    }

    /// Continuous decay at `now_ns`: returns the nanoseconds elapsed since
    /// the last decay (0 when `now_ns` is not later), by which the caller
    /// scales the criticality, and sets the decay clock to `now_ns`.
    pub fn continuous_decay(&mut self, now_ns: u64) -> (elapsed: u64)
        ensures
            final(self).vtime == old(self).vtime,
            final(self).prev_decay_ns == now_ns,
            elapsed == elapsed_ns(old(self).prev_decay_ns, now_ns),
            old(self).prev_decay_ns <= now_ns ==> elapsed == now_ns - old(self).prev_decay_ns,
            now_ns < old(self).prev_decay_ns ==> elapsed == 0,
    {
        let delta_ns = now_ns.saturating_sub(self.prev_decay_ns);
        self.prev_decay_ns = now_ns;
        delta_ns
    }
}

/// `lc / 2^n` is at most `lc`, and the shift the code performs computes it.
proof fn lemma_halved(lc: u64, n: nat)
    ensures
        0 <= lc as nat / pow2(n) <= lc,
        n < 64 ==> lc >> (n as u64) == halved(lc, n),
        n >= 64 ==> halved(lc, n) == 0,
{
    vstd::arithmetic::power2::lemma_pow2_pos(n);
    vstd::arithmetic::div_mod::lemma_div_nonincreasing(lc as int, pow2(n) as int);
    vstd::arithmetic::div_mod::lemma_div_pos_is_pos(lc as int, pow2(n) as int);
    if n < 64 {
        vstd::bits::lemma_u64_shr_is_div(lc, n as u64);
    } else {
        vstd::arithmetic::power2::lemma2_to64();
        if n > 64 {
            vstd::arithmetic::power2::lemma_pow2_strictly_increases(64, n);
        }
        vstd::arithmetic::div_mod::lemma_basic_div(lc as int, pow2(n) as int);
    }
}

proof fn lemma_halved_halved(x: u64, a: nat, b: nat)
    ensures
        halved(halved(x, a), b) == halved(x, a + b),
{
    lemma_halved(x, a);
    vstd::arithmetic::power2::lemma_pow2_pos(a);
    vstd::arithmetic::power2::lemma_pow2_pos(b);
    vstd::arithmetic::div_mod::lemma_div_denominator(x as int, pow2(a) as int, pow2(b) as int);
    vstd::arithmetic::power2::lemma_pow2_adds(a, b);
}

/// One discrete step, stated on the clock: from `prev <= now` the clock
/// advances by whole half-lives to within one half-life of `now`, and the
/// criticality is halved once per half-life advanced.
pub proof fn lemma_discrete_step_raw(lc: u64, prev: u64, now: u64)
    ensures
        prev <= now ==> {
            let (lc2, prev2) = discrete_step(lc, prev, now);
            let h = HALF_LIFE_NS as int;
            let steps = (prev2 - prev) / h;
            &&& prev <= prev2 <= now
            &&& now - prev2 < h
            &&& (prev2 - prev) % h == 0
            &&& (half_lives(prev, now) > 0 <==> prev2 != prev)
            &&& half_lives(prev, now) > 0 ==> lc2 == (lc as nat / pow2(steps as nat)) as u64
        },
        now <= prev ==> discrete_step(lc, prev, now) == (lc, prev) && half_lives(prev, now) == 0,
{
    if prev <= now {
        let h = HALF_LIFE_NS as int;
        let e = now - prev;
        vstd::arithmetic::div_mod::lemma_fundamental_div_mod(e, h);
        let n = e / h;
        if n > 0 {
            vstd::arithmetic::div_mod::lemma_mod_multiples_basic(n, h);
            vstd::arithmetic::div_mod::lemma_div_multiples_vanish(n, h);
            vstd::arithmetic::mul::lemma_mul_is_commutative(n, h);
        }
    }
}

/// Decaying never raises the criticality.
pub proof fn lemma_halved_le(x: u64, n: nat)
    ensures
        halved(x, n) <= x,
{
    lemma_halved(x, n);
}

/// The discrete decay keeps its clock within one half-life of the present
/// and never moves it backwards.
pub proof fn lemma_discrete_step_clock(lc: u64, prev: u64, now: u64)
    ensures
        prev <= discrete_step(lc, prev, now).1,
        prev <= now ==> discrete_step(lc, prev, now).1 <= now,
        prev <= now ==> now - discrete_step(lc, prev, now).1 < HALF_LIFE_NS,
        discrete_step(lc, prev, now).0 <= lc,
{
    let e = elapsed_ns(prev, now);
    let h = HALF_LIFE_NS as nat;
    vstd::arithmetic::div_mod::lemma_fundamental_div_mod(e as int, h as int);
    lemma_halved_le(lc, half_lives(prev, now));
}

/// Discrete decay does not depend on how often it is applied: decaying at
/// `t1` and then at `t2` leaves the same criticality and the same clock as
/// decaying once at `t2`.
pub proof fn lemma_discrete_decay_path_independent(lc: u64, prev: u64, t1: u64, t2: u64)
    requires
        prev <= t1 <= t2,
    ensures
        ({
            let (lc1, p1) = discrete_step(lc, prev, t1);
            discrete_step(lc1, p1, t2) == discrete_step(lc, prev, t2)
        }),
{
    let h = HALF_LIFE_NS as int;
    let e1 = t1 - prev;
    let e2 = t2 - prev;
    let n1 = e1 / h;
    let n = e2 / h;
    let r2 = e2 % h;
    vstd::arithmetic::div_mod::lemma_fundamental_div_mod(e1, h);
    vstd::arithmetic::div_mod::lemma_fundamental_div_mod(e2, h);
    vstd::arithmetic::div_mod::lemma_div_is_ordered(e1, e2, h);
    let (lc1, p1) = discrete_step(lc, prev, t1);
    assert(p1 == prev + n1 * h);
    let d = t2 - p1;
    assert(d == (n - n1) * h + r2) by (nonlinear_arith)
        requires
            d == t2 - p1,
            p1 == prev + n1 * h,
            e2 == t2 - prev,
            e2 == h * n + r2,
    ;
    vstd::arithmetic::div_mod::lemma_fundamental_div_mod_converse(d, h, n - n1, r2);
    if n1 > 0 {
        lemma_halved_halved(lc, n1 as nat, (n - n1) as nat);
    }
}

} // verus!
