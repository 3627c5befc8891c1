//! The emulated one-way network link.
//!
//! Messages in flight sit in a queue tagged with a scheduled delivery time.
//! Sending draws from the run's seeded random source: first whether the link
//! drops the message, then how much latency it adds within the configured
//! interval.  Delivery is polled per tick; latency variation reorders
//! messages naturally, and nothing is ever duplicated.

use vstd::prelude::*;
use crate::fixed::{add_u64_sat, sat_u64};
use crate::rng::{rng_next_spec, SimRng};

verus! {

/// One message in flight: when it arrives, and its bytes.
pub struct InFlight {
    pub deliver_at: u64,
    pub payload: Vec<u8>,
}

/// A one-way link delaying, dropping and reordering messages.
pub struct EmulatedLink {
    pub queue: Vec<InFlight>,
    /// Least added latency, in nanoseconds.
    pub min_latency: u64,
    /// Greatest added latency, in nanoseconds.
    pub max_latency: u64,
    /// Drop probability, in parts per million.
    pub loss_ppm: u32,
    /// This link's own seeded random source.
    pub rng: SimRng,
}

/// What sending does to the queue and the random source: one draw decides
/// loss; a surviving message draws its latency uniformly from the
/// configured interval and joins the queue, scheduled that far after `now`.
pub open spec fn link_send_spec(
    q: Seq<(u64, Seq<u8>)>,
    rng: SimRng,
    now: u64,
    min_latency: u64,
    max_latency: u64,
    loss_ppm: u32,
    payload: Seq<u8>,
) -> (Seq<(u64, Seq<u8>)>, SimRng) {
    let (draw, rng2) = rng_next_spec(rng);
    if draw % 1_000_000 < loss_ppm {
        (q, rng2)
    } else {
        let (hi, rng3) = rng_next_spec(rng2);
        let (lo, rng4) = rng_next_spec(rng3);
        let ld = hi * 0x100000000 + lo;
        let range = max_latency - min_latency;
        let lat = if range == u64::MAX {
            ld
        } else {
            min_latency + (ld % (range + 1))
        };
        (q.push((sat_u64(now + lat) as u64, payload)), rng4)
    }
}

/// The payloads of the queued messages due at `now`, oldest first.
pub open spec fn due_spec(q: Seq<(u64, Seq<u8>)>, now: u64) -> Seq<Seq<u8>>
    decreases q.len(),
{
    if q.len() == 0 {
        Seq::empty()
    } else if q[0].0 <= now {
        seq![q[0].1] + due_spec(q.drop_first(), now)
    } else {
        due_spec(q.drop_first(), now)
    }
}

/// The queued messages still in flight after `now`, oldest first.
pub open spec fn stay_spec(q: Seq<(u64, Seq<u8>)>, now: u64) -> Seq<(u64, Seq<u8>)>
    decreases q.len(),
{
    if q.len() == 0 {
        Seq::empty()
    } else if q[0].0 <= now {
        stay_spec(q.drop_first(), now)
    } else {
        seq![q[0]] + stay_spec(q.drop_first(), now)
    }
}

/// Polling for delivery partitions the queue: every queued message is
/// either delivered now or stays in flight, and none is duplicated.
pub proof fn lemma_due_stay_partition(q: Seq<(u64, Seq<u8>)>, now: u64)
    ensures
        due_spec(q, now).len() + stay_spec(q, now).len() == q.len(),
    decreases q.len(),
{
    if q.len() > 0 {
        lemma_due_stay_partition(q.drop_first(), now);
    }
}

/// A delivery happens only because some queued message was due.
pub proof fn lemma_due_nonempty_witness(q: Seq<(u64, Seq<u8>)>, now: u64)
    requires
        due_spec(q, now).len() > 0,
    ensures
        exists|i: int| 0 <= i < q.len() && (#[trigger] q[i]).0 <= now,
    decreases q.len(),
{
    if q.len() > 0 {
        if q[0].0 <= now {
            assert(0 <= 0 < q.len() && q[0].0 <= now);
        } else {
            lemma_due_nonempty_witness(q.drop_first(), now);
            let w = choose|i: int|
                0 <= i < q.drop_first().len() && (#[trigger] q.drop_first()[i]).0 <= now;
            assert(q[w + 1] == q.drop_first()[w]);
            assert(0 <= w + 1 < q.len() && q[w + 1].0 <= now);
        }
    }
}

/// Messages kept in flight keep any delivery-time lower bound the queue had.
pub proof fn lemma_stay_bound(q: Seq<(u64, Seq<u8>)>, now: u64, d: int)
    requires
        forall|i: int| 0 <= i < q.len() ==> (#[trigger] q[i]).0 >= d,
    ensures
        forall|i: int|
            0 <= i < stay_spec(q, now).len() ==> (#[trigger] stay_spec(q, now)[i]).0 >= d,
    decreases q.len(),
{
    if q.len() > 0 {
        assert(forall|i: int|
            0 <= i < q.drop_first().len() ==> (#[trigger] q.drop_first()[i]).0 >= d);
        lemma_stay_bound(q.drop_first(), now, d);
        let s = stay_spec(q, now);
        let rest = stay_spec(q.drop_first(), now);
        assert forall|i: int| 0 <= i < s.len() implies (#[trigger] s[i]).0 >= d by {
            if q[0].0 <= now {
                assert(s[i] == rest[i]);
            } else if i == 0 {
                assert(s[0] == q[0]);
            } else {
                assert(s[i] == rest[i - 1]);
            }
        }
    }
}

impl EmulatedLink {
    /// The messages in flight: delivery times and payloads, oldest first.
    pub open spec fn view(&self) -> Seq<(u64, Seq<u8>)> {
        self.queue@.map_values(|e: InFlight| (e.deliver_at, e.payload@))
    }

    /// The latency interval is ordered and the loss ratio is a probability.
    pub open spec fn wf(&self) -> bool {
        self.min_latency <= self.max_latency && self.loss_ppm <= 1_000_000
    }

    /// A fresh, empty link with the given latency interval, loss
    /// probability, and seeded random source.
    pub fn new(min_latency: u64, max_latency: u64, loss_ppm: u32, rng: SimRng) -> (r: EmulatedLink)
        ensures
            r.view() == Seq::<(u64, Seq<u8>)>::empty(),
            r.min_latency == min_latency,
            r.max_latency == max_latency,
            r.loss_ppm == loss_ppm,
            r.rng == rng,
    {
        let queue: Vec<InFlight> = Vec::new();
        let r = EmulatedLink { queue, min_latency, max_latency, loss_ppm, rng };
        proof {
            assert(r.view() =~= Seq::<(u64, Seq<u8>)>::empty());
        }
        r
    }

    /// Sends one message, exactly as [`link_send_spec`] says.  A link that
    /// drops everything never grows its queue, and one that drops nothing
    /// always schedules the message.
    pub fn send(&mut self, now: u64, payload: Vec<u8>)
        requires
            old(self).wf(),
        ensures
            final(self).wf(),
            ({
                let (q2, rng2) = link_send_spec(old(self).view(), old(self).rng, now,
                old(self).min_latency, old(self).max_latency, old(self).loss_ppm, payload@);
                final(self).view() == q2 && final(self).rng == rng2
            }),
            final(self).min_latency == old(self).min_latency,
            final(self).max_latency == old(self).max_latency,
            final(self).loss_ppm == old(self).loss_ppm,
            old(self).loss_ppm == 1_000_000 ==> final(self).view() == old(self).view(),
            old(self).loss_ppm == 0 ==> final(self).view().len() == old(self).view().len() + 1,
    {
        let ghost q0 = self.view();
        let draw: u32 = self.rng.next_u32();
        proof {
            vstd::arithmetic::div_mod::lemma_mod_bound(draw as int, 1_000_000);
        }
        if draw % 1_000_000u32 < self.loss_ppm {
            return ;
        }
        let ld: u64 = self.rng.next_u64();
        let range: u64 = self.max_latency - self.min_latency;
        let lat: u64 = if range == u64::MAX {
            ld
        } else {
            self.min_latency + (ld % (range + 1))
        };
        proof {
            if range != u64::MAX {
                vstd::arithmetic::div_mod::lemma_mod_bound(ld as int, range as int + 1);
            }
        }
        let deliver_at: u64 = add_u64_sat(now, lat);
        self.queue.push(InFlight { deliver_at, payload });
        proof {
            assert(self.view() =~= q0.push((deliver_at, payload@)));
        }
    }

    /// Removes and returns the payloads of every message due at `now`,
    /// oldest first; later messages stay queued in order.
    pub fn receive_due(&mut self, now: u64) -> (r: Vec<Vec<u8>>)
        ensures
            r@.len() == due_spec(old(self).view(), now).len(),
            forall|i: int|
                0 <= i < r@.len() ==> r@[i]@ == due_spec(old(self).view(), now)[i],
            final(self).view() == stay_spec(old(self).view(), now),
            final(self).min_latency == old(self).min_latency,
            final(self).max_latency == old(self).max_latency,
            final(self).loss_ppm == old(self).loss_ppm,
            final(self).rng == old(self).rng,
            old(self).view().len() == 0 ==> r@.len() == 0 && final(self).view() == old(
                self,
            ).view(),
    {
        let ghost q0 = self.view();
        let ghost link0 = *self;
        let mut due: Vec<Vec<u8>> = Vec::new();
        let mut keep: Vec<InFlight> = Vec::new();
        while self.queue.len() > 0
            invariant
                self.min_latency == link0.min_latency,
                self.max_latency == link0.max_latency,
                self.loss_ppm == link0.loss_ppm,
                self.rng == link0.rng,
                self.queue@.len() <= q0.len(),
                self.view() == q0.take(self.queue@.len() as int),
                due@.len() == due_spec(q0.skip(self.queue@.len() as int), now).len(),
                forall|i: int|
                    0 <= i < due@.len() ==> due@[i]@ == due_spec(
                        q0.skip(self.queue@.len() as int),
                        now,
                    )[i],
                keep@.map_values(|e: InFlight| (e.deliver_at, e.payload@)) == stay_spec(
                    q0.skip(self.queue@.len() as int),
                    now,
                ),
            decreases self.queue@.len(),
        {
            let ghost len_before = self.queue@.len() as int;
            let ghost tail = q0.skip(len_before);
            let e = match self.queue.pop() {
                Some(e) => e,
                None => {
                    proof {
                        assert(false);
                    }
                    InFlight { deliver_at: 0, payload: Vec::new() }
                },
            };
            proof {
                let rest = q0.skip(len_before - 1);
                assert(q0.take(len_before)[len_before - 1] == q0[len_before - 1]);
                assert((e.deliver_at, e.payload@) == q0[len_before - 1]);
                assert(rest[0] == q0[len_before - 1]);
                assert(rest.drop_first() =~= tail);
                assert(self.view() =~= q0.take(len_before - 1));
            }
            if e.deliver_at <= now {
                due.insert(0, e.payload);
                proof {
                    let rest = q0.skip(len_before - 1);
                    assert(due_spec(rest, now) == seq![rest[0].1] + due_spec(tail, now));
                    assert(forall|i: int|
                        0 <= i < due@.len() ==> due@[i]@ == due_spec(rest, now)[i]);
                }
            } else {
                keep.insert(0, e);
                proof {
                    let rest = q0.skip(len_before - 1);
                    assert(stay_spec(rest, now) == seq![rest[0]] + stay_spec(tail, now));
                    assert(keep@.map_values(|x: InFlight| (x.deliver_at, x.payload@)) =~= stay_spec(
                        rest,
                        now,
                    ));
                }
            }
        }
        self.queue = keep;
        proof {
            assert(q0.skip(0) =~= q0);
        }
        due
    }
}

} // verus!
