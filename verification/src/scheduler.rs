//! The node's measurement-scheduling state machine.
//!
//! The scheduler drives a repeating acquisition cycle across sensors with
//! different worst-case completion latencies.  A cycle starts at a scheduled
//! absolute instant; that instant — not the actual firing time — anchors
//! both the single collection deadline and the start of the next cycle, so
//! timing jitter never accumulates.  All instants and durations are in
//! microseconds.  Talking to the sensors, the timers and the radio is the
//! surrounding system's job: it feeds this state machine the scheduled
//! instants and the collected readings, and carries out what it returns.

use vstd::prelude::*;

use crate::codec::{manufacturer_data_spec, encode_manufacturer_data};

verus! {

/// The acquisition cycle period, in milliseconds.
pub const MEASURE_INTERVAL_MS: u32 = 3000;

/// The readings of the mandatory primary sensor, which reports temperature
/// and humidity together.
pub struct PrimaryReading {
    pub temperature_millidegrees: i32,
    pub humidity_millipercent: i32,
}

/// What a finished cycle hands back: the manufacturer-specific element to
/// broadcast — none when the cycle was abandoned — and the absolute instant
/// at which the next cycle starts.
pub struct CycleOutput {
    pub payload: Option<Vec<u8>>,
    pub next_start: u64,
}

/// The greatest worst-case completion latency among the configured sensors,
/// or zero when there is none.
pub open spec fn max_latency_spec(s: Seq<u32>) -> u32
    decreases s.len(),
{
    if s.len() == 0 {
        0
    } else {
        let m = max_latency_spec(s.drop_last());
        if s.last() > m {
            s.last()
        } else {
            m
        }
    }
}

/// The greatest worst-case completion latency among the configured sensors.
pub fn max_latency(latencies: &Vec<u32>) -> (m: u32)
    ensures
        m == max_latency_spec(latencies@),
{
    let mut m: u32 = 0;
    let mut i: usize = 0;
    #[verifier::loop_isolation(false)]
    while i < latencies.len()
        invariant
            i <= latencies@.len(),
            m == max_latency_spec(latencies@.take(i as int)),
        decreases latencies@.len() - i,
    {
        proof {
            assert(latencies@.take(i + 1).drop_last() =~= latencies@.take(i as int));
            assert(latencies@.take(i + 1).last() == latencies@[i as int]);
        }
        if latencies[i] > m {
            m = latencies[i];
        }
        i += 1;
    }
    proof {
        assert(latencies@.take(latencies@.len() as int) =~= latencies@);
    }
    m
}

/// Drives the cyclic acquisition of measurements and owns the rolling
/// 16-bit cycle counter, which wraps silently.
pub struct MeasurementScheduler {
    counter: u16,
    scheduled_start: Option<u64>,
    interval_us: u64,
}

impl MeasurementScheduler {
    /// The rolling cycle counter.
    pub closed spec fn counter_spec(&self) -> u16 {
        self.counter
    }

    /// The scheduled start of the cycle being acquired, if one is under way.
    pub closed spec fn scheduled_start_spec(&self) -> Option<u64> {
        self.scheduled_start
    }

    /// The fixed interval between cycle starts, in microseconds.
    pub closed spec fn interval_spec(&self) -> u64 {
        self.interval_us
    }

    /// A scheduler at counter zero with no acquisition under way.
    pub fn new(interval_us: u64) -> (r: Self)
        ensures
            r.counter_spec() == 0,
            r.scheduled_start_spec() is None,
            r.interval_spec() == interval_us,
    {
        MeasurementScheduler { counter: 0, scheduled_start: None, interval_us }
    }

    /// Whether an acquisition cycle is under way, so that collection may be
    /// called.
    pub fn is_acquiring(&self) -> (r: bool)
        ensures
            r == (self.scheduled_start_spec() is Some),
    {
        self.scheduled_start.is_some()
    }

    /// Starts an acquisition cycle.  `scheduled` is the absolute instant
    /// the cycle was scheduled for — recorded as the cycle's start even
    /// when the task fires late, so jitter cannot propagate.  The returned
    /// deadline, one unified wait covering every sensor, is when the
    /// results are to be collected.
    pub fn start_measurement(&mut self, scheduled: u64, latencies: &Vec<u32>) -> (deadline: u64)
        requires
            scheduled + max_latency_spec(latencies@) <= u64::MAX,
        ensures
            deadline == scheduled + max_latency_spec(latencies@),
            final(self).scheduled_start_spec() == Some(scheduled),
            final(self).counter_spec() == old(self).counter_spec(),
            final(self).interval_spec() == old(self).interval_spec(),
    {
        self.scheduled_start = Some(scheduled);
        let delta = max_latency(latencies);
        scheduled + delta as u64
    }

    /// Collects the results of the cycle under way and closes it.
    ///
    /// A missing optional reading is simply absent from the payload.  A
    /// missing primary reading is a hard acquisition failure: the cycle is
    /// abandoned — no payload, counter untouched.  Either way the next
    /// cycle starts exactly one interval after this cycle's scheduled
    /// start, never relative to collection time.
    pub fn collect_measurement(
        &mut self,
        primary: Option<PrimaryReading>,
        ambient_light_bits: Option<u32>,
    ) -> (out: CycleOutput)
        requires
            old(self).scheduled_start_spec() is Some,
            old(self).scheduled_start_spec().unwrap() + old(self).interval_spec() <= u64::MAX,
        ensures
            out.next_start == old(self).scheduled_start_spec().unwrap()
                + old(self).interval_spec(),
            final(self).scheduled_start_spec() is None,
            final(self).interval_spec() == old(self).interval_spec(),
            match primary {
                Some(p) => {
                    &&& out.payload matches Some(v) && v@ == manufacturer_data_spec(
                        old(self).counter_spec(),
                        Some(p.temperature_millidegrees),
                        Some(p.humidity_millipercent),
                        ambient_light_bits,
                    )
                    &&& final(self).counter_spec() == ((old(self).counter_spec() + 1) % 0x10000)
                        as u16
                },
                None => {
                    &&& out.payload is None
                    &&& final(self).counter_spec() == old(self).counter_spec()
                },
            },
    {
        let scheduled_start = match self.scheduled_start {
            Some(t) => t,
            None => unreached(),
        };
        self.scheduled_start = None;
        let next_start = scheduled_start + self.interval_us;
        match primary {
            Some(p) => {
                let payload = encode_manufacturer_data(
                    self.counter,
                    Some(p.temperature_millidegrees),
                    Some(p.humidity_millipercent),
                    ambient_light_bits,
                );
                self.counter = if self.counter == 0xffff {
                    0
                } else {
                    self.counter + 1
                };
                CycleOutput { payload: Some(payload), next_start }
            },
            None => CycleOutput { payload: None, next_start },
        }
    }
}

} // verus!
