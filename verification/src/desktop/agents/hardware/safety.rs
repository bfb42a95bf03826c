//! Hardware safety rules: a watchdog heartbeat, a limit on relay switching
//! per minute and a failsafe latch. Times are nanoseconds on a monotonic
//! clock, counted from the moment the monitor was made.
use vstd::prelude::*;
use crate::text::{dec_of, dec_string};

verus! {

/// The length of the relay rate window, in nanoseconds (one minute).
pub const RELAY_WINDOW_NS: u64 = 60_000_000_000;

/// The limits the monitor enforces.
#[derive(Debug, Clone, Copy)]
pub struct SafetyLimits {
    pub max_relay_cycles_per_min: u32,
}

impl Default for SafetyLimits {
    fn default() -> (r: Self)
        ensures
            r.max_relay_cycles_per_min == 30,
    {
        SafetyLimits { max_relay_cycles_per_min: 30 }
    }
}

/// A point on the monotonic clock, `std::time::Instant`.
#[verifier::external_type_specification]
#[verifier::external_body]
pub struct ExInstant(std::time::Instant);

/// Calls `std::time::Instant::now`. The value depends on the clock.
#[verifier::external_body]
fn instant_now() -> (r: std::time::Instant) {
    std::time::Instant::now()
}

/// Calls `Instant::elapsed` on `origin` and returns the nanoseconds since it
/// (`Duration::as_nanos`, kept to 64 bits). The value depends on the clock.
#[verifier::external_body]
fn nanos_since(origin: &std::time::Instant) -> (r: u64) {
    origin.elapsed().as_nanos() as u64
}

/// Time from `t` to `now`, zero when `t` lies after `now`.
pub open spec fn elapsed(now: u64, t: u64) -> nat {
    if now >= t {
        (now - t) as nat
    } else {
        0
    }
}

/// A relay switch at `t` still counts at time `now`.
pub open spec fn in_window(now: u64, t: u64) -> bool {
    elapsed(now, t) < RELAY_WINDOW_NS
}

/// The switch times of `s` that still count at `now`, in order.
pub open spec fn recent(s: Seq<u64>, now: u64) -> Seq<u64>
    decreases s.len(),
{
    if s.len() == 0 {
        s
    } else if in_window(now, s.last()) {
        recent(s.drop_last(), now).push(s.last())
    } else {
        recent(s.drop_last(), now)
    }
}

/// The message when a switch is refused: the count it would make and the limit.
pub open spec fn overuse_message(count: nat, max: nat) -> Seq<char> {
    "Role asiri kullanim: dakikada "@ + dec_of(count) + " (limit: "@ + dec_of(max) + ")"@
}

/// One relay switch at `now`: the switches older than a minute are dropped;
/// when the limit is reached the switch is refused, otherwise it is recorded.
pub open spec fn relay_step(
    cycles: Seq<u64>,
    max: nat,
    now: u64,
    after: Seq<u64>,
    r: Result<(), String>,
) -> bool {
    if recent(cycles, now).len() >= max {
        &&& after == recent(cycles, now)
        &&& r matches Err(msg)
        &&& msg@ == overuse_message(recent(cycles, now).len() + 1, max)
    } else {
        &&& after == recent(cycles, now).push(now)
        &&& r is Ok
    }
}

/// Watches the hardware: heartbeat, relay switching rate and failsafe.
pub struct SafetyMonitor {
    origin: std::time::Instant,
    last_heartbeat: u64,
    limits: SafetyLimits,
    relay_cycles: Vec<u64>,
    failsafe_engaged: bool,
}

impl SafetyMonitor {
    pub closed spec fn last_heartbeat_view(&self) -> u64 {
        self.last_heartbeat
    }

    pub closed spec fn max_cycles(&self) -> nat {
        self.limits.max_relay_cycles_per_min as nat
    }

    pub closed spec fn cycles_view(&self) -> Seq<u64> {
        self.relay_cycles@
    }

    pub closed spec fn failsafe_view(&self) -> bool {
        self.failsafe_engaged
    }

    /// Never more recorded switches than the per-minute limit.
    pub open spec fn well_formed(&self) -> bool {
        self.cycles_view().len() <= self.max_cycles()
    }

    #[verifier::type_invariant]
    spec fn bounded(&self) -> bool {
        self.relay_cycles@.len() <= self.limits.max_relay_cycles_per_min
    }

    /// A monitor whose heartbeat is at `now` on its clock, with no switches
    /// recorded and the failsafe released.
    pub fn new_at(limits: SafetyLimits, now: u64) -> (r: Self)
        ensures
            r.last_heartbeat_view() == now,
            r.max_cycles() == limits.max_relay_cycles_per_min,
            r.cycles_view() == Seq::<u64>::empty(),
            !r.failsafe_view(),
            r.well_formed(),
    {
        SafetyMonitor {
            origin: instant_now(),
            last_heartbeat: now,
            limits,
            relay_cycles: Vec::new(),
            failsafe_engaged: false,
        }
    }

    /// A monitor whose heartbeat is the moment it was made.
    pub fn new(limits: SafetyLimits) -> (r: Self)
        ensures
            r.last_heartbeat_view() == 0,
            r.max_cycles() == limits.max_relay_cycles_per_min,
            r.cycles_view() == Seq::<u64>::empty(),
            !r.failsafe_view(),
            r.well_formed(),
    {
        Self::new_at(limits, 0)
    }

    /// Refreshes the heartbeat to `now`.
    pub fn pet_at(&mut self, now: u64)
        ensures
            final(self).last_heartbeat_view() == now,
            final(self).max_cycles() == old(self).max_cycles(),
            final(self).cycles_view() == old(self).cycles_view(),
            final(self).failsafe_view() == old(self).failsafe_view(),
    {
        proof {
            use_type_invariant(&*self);
        }
        self.last_heartbeat = now;
    }

    /// Refreshes the heartbeat to the current time.
    pub fn pet(&mut self)
        ensures
            final(self).max_cycles() == old(self).max_cycles(),
            final(self).cycles_view() == old(self).cycles_view(),
            final(self).failsafe_view() == old(self).failsafe_view(),
    {
        let now = nanos_since(&self.origin);
        self.pet_at(now);
    }

    /// Whether, at `now`, less than `timeout` has passed since the heartbeat.
    pub fn check_heartbeat_at(&self, now: u64, timeout: u64) -> (r: bool)
        ensures
            r == (elapsed(now, self.last_heartbeat_view()) < timeout),
    {
        let e = if now >= self.last_heartbeat {
            now - self.last_heartbeat
        } else {
            0
        };
        e < timeout
    }

    /// Whether less than `timeout` nanoseconds have passed since the heartbeat,
    /// by the clock.
    pub fn check_heartbeat(&self, timeout: u64) -> (r: bool)
        ensures
            timeout == 0 ==> !r,
            exists|now: u64| r == (elapsed(now, self.last_heartbeat_view()) < timeout),
    {
        self.check_heartbeat_at(nanos_since(&self.origin), timeout)
    }

    /// Records a relay switch at `now`. Switches older than a minute are
    /// forgotten; if the limit is already reached the switch is refused.
    pub fn record_relay_cycle_at(&mut self, now: u64) -> (r: Result<(), String>)
        ensures
            final(self).well_formed(),
            final(self).max_cycles() == old(self).max_cycles(),
            final(self).last_heartbeat_view() == old(self).last_heartbeat_view(),
            final(self).failsafe_view() == old(self).failsafe_view(),
            relay_step(old(self).cycles_view(), old(self).max_cycles(), now, final(self).cycles_view(), r),
    {
        proof {
            use_type_invariant(&*self);
        }
        let ghost old_cycles = self.relay_cycles@;
        let mut kept: Vec<u64> = Vec::new();
        let mut i: usize = 0;
        while i < self.relay_cycles.len()
            invariant
                i <= self.relay_cycles.len(),
                self.relay_cycles@ == old_cycles,
                kept@ == recent(old_cycles.take(i as int), now),
                kept@.len() <= i,
            decreases self.relay_cycles.len() - i,
        {
            assert(old_cycles.take(i as int + 1).drop_last() =~= old_cycles.take(i as int));
            let t = self.relay_cycles[i];
            let e = if now >= t {
                now - t
            } else {
                0
            };
            if e < RELAY_WINDOW_NS {
                kept.push(t);
            }
            i += 1;
        }
        assert(old_cycles.take(old_cycles.len() as int) =~= old_cycles);
        proof {
            lemma_recent_len(old_cycles, now);
        }
        let max = self.limits.max_relay_cycles_per_min;
        if kept.len() >= max as usize {
            let n = dec_string(kept.len() as u64 + 1);
            let m = dec_string(max as u64);
            let msg = "Role asiri kullanim: dakikada ".to_string().concat(n.as_str()).concat(
                " (limit: ",
            ).concat(m.as_str()).concat(")");
            self.relay_cycles = kept;
            return Err(msg);
        }
        kept.push(now);
        self.relay_cycles = kept;
        Ok(())
    }

    /// Records a relay switch at the current time: the same step as
    /// `record_relay_cycle_at` at the time the clock gave.
    pub fn record_relay_cycle(&mut self) -> (r: Result<(), String>)
        ensures
            final(self).well_formed(),
            final(self).max_cycles() == old(self).max_cycles(),
            final(self).last_heartbeat_view() == old(self).last_heartbeat_view(),
            final(self).failsafe_view() == old(self).failsafe_view(),
            exists|now: u64| relay_step(old(self).cycles_view(), old(self).max_cycles(), now, final(self).cycles_view(), r),
    {
        proof {
            use_type_invariant(&*self);
        }
        let now = nanos_since(&self.origin);
        self.record_relay_cycle_at(now)
    }

    pub fn engage_failsafe(&mut self)
        ensures
            final(self).failsafe_view(),
            final(self).cycles_view() == old(self).cycles_view(),
            final(self).max_cycles() == old(self).max_cycles(),
            final(self).last_heartbeat_view() == old(self).last_heartbeat_view(),
    {
        proof {
            use_type_invariant(&*self);
        }
        self.failsafe_engaged = true;
    }

    pub fn disengage_failsafe(&mut self)
        ensures
            !final(self).failsafe_view(),
            final(self).cycles_view() == old(self).cycles_view(),
            final(self).max_cycles() == old(self).max_cycles(),
            final(self).last_heartbeat_view() == old(self).last_heartbeat_view(),
    {
        proof {
            use_type_invariant(&*self);
        }
        self.failsafe_engaged = false;
    }

    pub fn is_failsafe(&self) -> (r: bool)
        ensures
            r == self.failsafe_view(),
    {
        self.failsafe_engaged
    }

    /// Forgets every recorded switch.
    pub fn reset_relay_cycles(&mut self)
        ensures
            final(self).cycles_view() == Seq::<u64>::empty(),
            final(self).max_cycles() == old(self).max_cycles(),
            final(self).failsafe_view() == old(self).failsafe_view(),
            final(self).last_heartbeat_view() == old(self).last_heartbeat_view(),
    {
        self.relay_cycles = Vec::new();
    }
}

/// Forgetting old switches never adds any.
pub proof fn lemma_recent_len(s: Seq<u64>, now: u64)
    ensures
        recent(s, now).len() <= s.len(),
    decreases s.len(),
{
    if s.len() > 0 {
        lemma_recent_len(s.drop_last(), now);
    }
}

/// Every switch that is kept still counts at `now`.
pub proof fn lemma_recent_in_window(s: Seq<u64>, now: u64)
    ensures
        forall|i: int| 0 <= i < recent(s, now).len() ==> in_window(now, #[trigger] recent(s, now)[i]),
    decreases s.len(),
{
    if s.len() > 0 {
        lemma_recent_in_window(s.drop_last(), now);
        let r0 = recent(s.drop_last(), now);
        if in_window(now, s.last()) {
            assert forall|i: int| 0 <= i < recent(s, now).len() implies in_window(
                now,
                #[trigger] recent(s, now)[i],
            ) by {
                if i < r0.len() {
                    assert(recent(s, now)[i] == r0[i]);
                }
            }
        }
    }
}

/// Within any minute the monitor lets through at most the limit: after a
/// switch is recorded (or refused) no more switches are on record than the
/// limit allows, and every one of them still counts at that moment.
pub proof fn lemma_relay_rate_bounded(cycles: Seq<u64>, max: nat, now: u64)
    requires
        cycles.len() <= max,
    ensures
        recent(cycles, now).len() < max ==> recent(cycles, now).push(now).len() <= max,
        recent(cycles, now).len() <= max,
        forall|i: int|
            0 <= i < recent(cycles, now).len() ==> in_window(now, #[trigger] recent(cycles, now)[i]),
{
    lemma_recent_len(cycles, now);
    lemma_recent_in_window(cycles, now);
}

} // verus!
