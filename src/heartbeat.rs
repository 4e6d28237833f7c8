use std::time::Duration;
use vstd::prelude::*;

verus! {

/// Largest value the consecutive-failure counter can hold.
pub const MAX_FAIL_COUNT: u8 = 255;

/// How one liveness probe ended.
#[derive(Clone, Copy, Debug)]
pub enum ProbeOutcome {
    /// The acknowledgment came back after the given round trip.
    Acked(Duration),
    /// No acknowledgment came within the probe timeout.
    TimedOut,
    /// The probe could not be sent.
    SendFailed,
}

/// Connection health as measured by the heartbeat.
#[derive(Clone, Copy, Debug)]
pub struct Health {
    /// Round trip of the last acknowledged probe.
    pub delay: Option<Duration>,
    /// Probes missed in a row since the last acknowledgment, saturating.
    pub fail_count: u8,
}

/// Health after one probe: an acknowledgment records the delay and resets the
/// counter; a miss counts one more failure and keeps the delay; a failed send
/// changes nothing.
pub open spec fn probe_step(h: Health, outcome: ProbeOutcome) -> Health {
    match outcome {
        ProbeOutcome::Acked(d) => Health { delay: Some(d), fail_count: 0 },
        ProbeOutcome::TimedOut => Health {
            delay: h.delay,
            fail_count: if h.fail_count < MAX_FAIL_COUNT { (h.fail_count + 1) as u8 } else { h.fail_count },
        },
        ProbeOutcome::SendFailed => h,
    }
}

/// Health after a sequence of probes, in order.
pub open spec fn probe_run(h: Health, outcomes: Seq<ProbeOutcome>) -> Health
    decreases outcomes.len(),
{
    if outcomes.len() == 0 {
        h
    } else {
        probe_step(probe_run(h, outcomes.drop_last()), outcomes.last())
    }
}

/// `n` missed acknowledgments in a row.
pub open spec fn misses(n: nat) -> Seq<ProbeOutcome> {
    Seq::new(n, |_i: int| ProbeOutcome::TimedOut)
}

impl Health {
    /// No probe answered yet, no failure counted.
    pub fn new() -> (h: Health)
        ensures
            h.delay.is_none(),
            h.fail_count == 0,
    {
        Health { delay: None, fail_count: 0 }
    }

    /// Records how a probe ended.
    pub fn on_probe(&mut self, outcome: ProbeOutcome)
        ensures
            *final(self) == probe_step(*old(self), outcome),
    {
        match outcome {
            ProbeOutcome::Acked(d) => {
                self.delay = Some(d);
                self.fail_count = 0;
            },
            ProbeOutcome::TimedOut => {
                if self.fail_count < MAX_FAIL_COUNT {
                    self.fail_count = self.fail_count + 1;
                }
            },
            ProbeOutcome::SendFailed => {},
        }
    }
}

/// After `n` missed acknowledgments in a row the counter has grown by exactly
/// `n`, up to its largest value; from zero it reads `n` for every `n` it can hold.
pub proof fn lemma_misses_counted(h: Health, n: nat)
    ensures
        probe_run(h, misses(n)).fail_count == if h.fail_count + n <= MAX_FAIL_COUNT {
            h.fail_count + n
        } else {
            MAX_FAIL_COUNT as int
        },
        probe_run(h, misses(n)).delay == h.delay,
    decreases n,
{
    if n > 0 {
        assert(misses(n).drop_last() =~= misses((n - 1) as nat));
        lemma_misses_counted(h, (n - 1) as nat);
    }
}

/// One acknowledged probe resets the counter to zero whatever it read before.
pub proof fn lemma_ack_resets(h: Health, d: Duration)
    ensures
        probe_step(h, ProbeOutcome::Acked(d)).fail_count == 0,
        probe_step(h, ProbeOutcome::Acked(d)).delay == Some(d),
{
}

} // verus!
