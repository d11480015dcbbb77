//! A model of the pipelined dispatch stage: the concurrency-limited,
//! unordered transform that the serve loop drains.
//!
//! Each inbound request is admitted into the stage as soon as a slot is
//! free; at most `capacity` requests are in flight at once, and an in-flight
//! request may finish at any position (completion order is not input
//! order). The ghost history of admissions and completions is what the
//! stage's delivery and ordering guarantees are stated over: every admitted
//! request completes exactly once, and with a capacity of 1 completions
//! come in exactly the admission order.

use vstd::multiset::Multiset;
use vstd::prelude::*;

verus! {

/// The state of the pipelined dispatch stage, with its ghost history.
///
/// Requests are carried as plain `u64` tags; the tag pairs a completion
/// with the admission it answers.
pub struct Pipeline {
    /// How many requests may be in flight at once; at least 1.
    pub capacity: usize,
    /// The requests admitted and not yet completed, in admission order.
    pub in_flight: Vec<u64>,
    /// Every request ever admitted, in admission order.
    pub admitted: Ghost<Seq<u64>>,
    /// Every request completed so far, in completion order.
    pub completed: Ghost<Seq<u64>>,
}

impl Pipeline {
    /// What the stage maintains at every step: the concurrency bound, the
    /// conservation of requests (what was admitted is exactly what is
    /// completed or still in flight), and, when the capacity is 1, that the
    /// completion history followed by the in-flight requests is the
    /// admission history itself.
    pub open spec fn wf(self) -> bool {
        &&& self.capacity >= 1
        &&& self.in_flight@.len() <= self.capacity
        &&& self.admitted@.to_multiset() == self.completed@.to_multiset().add(
            self.in_flight@.to_multiset(),
        )
        &&& (self.capacity == 1 ==> self.completed@ + self.in_flight@ == self.admitted@)
    }

    /// A fresh stage with the given concurrency limit and an empty history.
    pub fn new(capacity: usize) -> (p: Self)
        requires
            capacity >= 1,
        ensures
            p.wf(),
            p.capacity == capacity,
            p.in_flight@ == Seq::<u64>::empty(),
            p.admitted@ == Seq::<u64>::empty(),
            p.completed@ == Seq::<u64>::empty(),
    {
        let p = Pipeline {
            capacity,
            in_flight: Vec::new(),
            admitted: Ghost(Seq::empty()),
            completed: Ghost(Seq::empty()),
        };
        proof {
            broadcast use vstd::seq_lib::group_to_multiset_ensures;
            broadcast use vstd::multiset::group_multiset_axioms;

            assert(p.in_flight@.to_multiset() =~= Multiset::empty());
            assert(p.admitted@.to_multiset() =~= p.completed@.to_multiset().add(
                p.in_flight@.to_multiset(),
            ));
        }
        p
    }

    /// Whether a dispatch slot is free, i.e. whether the next inbound
    /// request may be admitted now.
    pub fn has_slot(&self) -> (b: bool)
        ensures
            b == (self.in_flight@.len() < self.capacity),
    {
        self.in_flight.len() < self.capacity
    }

    /// How many requests are in flight.
    pub fn in_flight_len(&self) -> (n: usize)
        ensures
            n == self.in_flight@.len(),
    {
        self.in_flight.len()
    }

    /// Admit one inbound request into a free dispatch slot.
    pub fn accept(&mut self, request: u64)
        requires
            old(self).wf(),
            old(self).in_flight@.len() < old(self).capacity,
        ensures
            final(self).wf(),
            final(self).capacity == old(self).capacity,
            final(self).in_flight@ == old(self).in_flight@.push(request),
            final(self).admitted@ == old(self).admitted@.push(request),
            final(self).completed@ == old(self).completed@,
    {
        self.in_flight.push(request);
        proof {
            broadcast use vstd::seq_lib::group_to_multiset_ensures;
            broadcast use vstd::multiset::group_multiset_axioms;

            self.admitted@ = self.admitted@.push(request);
            assert(self.admitted@.to_multiset() =~= self.completed@.to_multiset().add(
                self.in_flight@.to_multiset(),
            ));
            if self.capacity == 1 {
                assert(self.completed@ + self.in_flight@ =~= self.admitted@);
            }
        }
    }

    /// Complete the in-flight request at the given position and take it out
    /// of its slot. The position is arbitrary: whichever dispatch finished
    /// first is the one handed out, in whatever order completions happen.
    pub fn complete(&mut self, i: usize) -> (request: u64)
        requires
            old(self).wf(),
            i < old(self).in_flight@.len(),
        ensures
            final(self).wf(),
            final(self).capacity == old(self).capacity,
            request == old(self).in_flight@[i as int],
            final(self).in_flight@ == old(self).in_flight@.remove(i as int),
            final(self).admitted@ == old(self).admitted@,
            final(self).completed@ == old(self).completed@.push(request),
    {
        let request = self.in_flight.remove(i);
        proof {
            broadcast use vstd::seq_lib::group_to_multiset_ensures;
            broadcast use vstd::multiset::group_multiset_axioms;

            let old_in_flight = old(self).in_flight@;
            self.completed@ = self.completed@.push(request);
            assert(old_in_flight.contains(old_in_flight[i as int]));
            assert(old_in_flight.to_multiset().count(request) >= 1);
            assert(self.admitted@.to_multiset() =~= self.completed@.to_multiset().add(
                self.in_flight@.to_multiset(),
            ));
            if self.capacity == 1 {
                assert(self.completed@ + self.in_flight@ =~= self.admitted@);
            }
        }
        request
    }

    /// With no pipelining (capacity 1), completions come in exactly the
    /// order their requests were admitted: the completion history is always
    /// a prefix of the admission history, so responses are written in
    /// request order, without exception.
    pub proof fn lemma_sequential_completion_order(self)
        requires
            self.wf(),
            self.capacity == 1,
        ensures
            self.completed@ == self.admitted@.take(self.completed@.len() as int),
    {
        assert(self.completed@ =~= (self.completed@ + self.in_flight@).take(
            self.completed@.len() as int,
        ));
    }

    /// Every admitted request is answered exactly once: once nothing is
    /// left in flight, the completions are exactly the admissions, with no
    /// loss and no duplication, whatever order they finished in.
    pub proof fn lemma_exactly_once_delivery(self)
        requires
            self.wf(),
            self.in_flight@.len() == 0,
        ensures
            self.completed@.to_multiset() == self.admitted@.to_multiset(),
    {
        broadcast use vstd::seq_lib::group_to_multiset_ensures;
        broadcast use vstd::multiset::group_multiset_axioms;

        assert(self.in_flight@.to_multiset() =~= Multiset::empty());
        assert(self.completed@.to_multiset() =~= self.completed@.to_multiset().add(
            Multiset::empty(),
        ));
    }
}

} // verus!
