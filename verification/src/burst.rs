//! The node's beacon burst controller.
//!
//! A freshly assembled advertisement frame is broadcast a fixed number of
//! times at a fixed spacing, anchored to the instant the burst started, to
//! improve reception odds over a lossy channel.  A new frame arriving
//! mid-burst pre-empts the remaining retransmissions of the old one: last
//! writer wins, no queueing.  The surrounding system performs the returned
//! action; a transient radio failure skips that single transmission and the
//! burst schedule continues unaffected.

use vstd::prelude::*;

verus! {

/// How many times each beacon frame is broadcast.
pub const BEACON_BURST_COUNT: u8 = 3;

/// The spacing between the broadcasts of a burst, in milliseconds.
pub const BEACON_BURST_INTERVAL_MS: u32 = 20;

/// What the controller asks the radio task to do when it fires.
pub enum BurstAction {
    /// Broadcast `payload` now; when the burst is not yet finished,
    /// `next_time` is the absolute instant, in microseconds, to fire again.
    Transmit { payload: Vec<u8>, next_time: Option<u64> },
    /// Nothing to send: no frame was armed, or the burst is finished.
    Idle,
}

/// Re-transmits the latest armed frame `BEACON_BURST_COUNT` times, spaced
/// `BEACON_BURST_INTERVAL_MS` apart.
pub struct BeaconBurstController {
    frame: Option<Vec<u8>>,
    attempt: u8,
}

impl BeaconBurstController {
    /// The armed frame, if any.
    pub closed spec fn frame_spec(&self) -> Option<Seq<u8>> {
        match self.frame {
            Some(f) => Some(f@),
            None => None,
        }
    }

    /// How many broadcasts of the armed frame have been made.
    pub closed spec fn attempt_spec(&self) -> u8 {
        self.attempt
    }

    /// A controller with no frame armed.
    pub fn new() -> (r: Self)
        ensures
            r.frame_spec() is None,
            r.attempt_spec() == 0,
    {
        BeaconBurstController { frame: None, attempt: 0 }
    }

    /// Arms a new frame, pre-empting whatever remained of the previous
    /// burst: the attempt count starts over at zero.
    pub fn arm(&mut self, frame: Vec<u8>)
        ensures
            final(self).frame_spec() == Some(frame@),
            final(self).attempt_spec() == 0,
    {
        self.frame = Some(frame);
        self.attempt = 0;
    }

    /// One firing of the burst task at its scheduled instant.  While the
    /// armed frame has broadcasts left, the frame is transmitted and the
    /// attempt count moves up; the follow-up transmission, when one
    /// remains, is anchored to this firing's scheduled instant, not to its
    /// completion.  Without an armed frame, or once the burst count is
    /// reached, the controller is idle until a new frame arrives.
    pub fn fire(&mut self, scheduled: u64) -> (action: BurstAction)
        requires
            scheduled + BEACON_BURST_INTERVAL_MS * 1000 <= u64::MAX,
        ensures
            final(self).frame_spec() == old(self).frame_spec(),
            match old(self).frame_spec() {
                Some(f) => {
                    if old(self).attempt_spec() < BEACON_BURST_COUNT {
                        &&& action matches BurstAction::Transmit { payload, next_time } && payload@
                            == f && next_time == (if old(self).attempt_spec() + 1
                            < BEACON_BURST_COUNT {
                            Some((scheduled + BEACON_BURST_INTERVAL_MS * 1000) as u64)
                        } else {
                            None
                        })
                        &&& final(self).attempt_spec() == old(self).attempt_spec() + 1
                    } else {
                        &&& action is Idle
                        &&& final(self).attempt_spec() == old(self).attempt_spec()
                    }
                },
                None => {
                    &&& action is Idle
                    &&& final(self).attempt_spec() == old(self).attempt_spec()
                },
            },
    {
        match &self.frame {
            Some(frame) => {
                if self.attempt < BEACON_BURST_COUNT {
                    let payload = clone_bytes(frame);
                    self.attempt = self.attempt + 1;
                    let next_time = if self.attempt < BEACON_BURST_COUNT {
                        Some(scheduled + (BEACON_BURST_INTERVAL_MS as u64) * 1000)
                    } else {
                        None
                    };
                    BurstAction::Transmit { payload, next_time }
                } else {
                    BurstAction::Idle
                }
            },
            None => BurstAction::Idle,
        }
    }
}

/// A copy of a byte vector.
fn clone_bytes(v: &Vec<u8>) -> (r: Vec<u8>)
    ensures
        r@ == v@,
{
    let mut r: Vec<u8> = Vec::new();
    let mut i: usize = 0;
    #[verifier::loop_isolation(false)]
    while i < v.len()
        invariant
            i <= v@.len(),
            r@ == v@.take(i as int),
        decreases v@.len() - i,
    {
        r.push(v[i]);
        proof {
            assert(r@ =~= v@.take(i + 1));
        }
        i += 1;
    }
    proof {
        assert(v@.take(v@.len() as int) =~= v@);
    }
    r
}

} // verus!
