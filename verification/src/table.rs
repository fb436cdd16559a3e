//! A table of live calls: an explicit map from call identifier to the
//! owned call record, mediating every mutation through the state machine.
//! Different calls are independent; an event addressed to an identifier
//! with no live record is answered with `UnknownCall`.

use vstd::prelude::*;

use crate::machine::accepts;
use crate::machine::emitted;
use crate::machine::next_ever_connected;
use crate::machine::next_state;
use crate::machine::rejection;
use crate::machine::CallRecord;
use crate::machine::CallStateMachine;
use crate::types::CallDirection;
use crate::types::CallId;
use crate::types::Directive;
use crate::types::DisconnectPolicy;
use crate::types::Event;
use crate::types::TransitionError;

verus! {

/// The live calls of one endpoint, each owned exclusively by this table
/// and mutated only through the configured state machine.
pub struct CallTable {
    machine: CallStateMachine,
    records: Vec<CallRecord>,
}

impl CallTable {
    /// The live records, in creation order.
    pub closed spec fn spec_records(&self) -> Seq<CallRecord> {
        self.records@
    }

    /// The configured duplicate-disconnect policy.
    pub closed spec fn spec_policy(&self) -> DisconnectPolicy {
        self.machine.spec_policy()
    }

    /// Whether a live record with this identifier exists.
    pub open spec fn contains_id(&self, id: CallId) -> bool {
        exists|i: int|
            0 <= i < self.spec_records().len() && #[trigger] self.spec_records()[i].spec_id() == id
    }

    /// Identifiers are unique: at most one live record per call.
    pub open spec fn ids_unique(&self) -> bool {
        forall|i: int, j: int|
            0 <= i < j < self.spec_records().len() ==> #[trigger] self.spec_records()[i].spec_id()
                != #[trigger] self.spec_records()[j].spec_id()
    }

    /// Well-formedness: unique identifiers, and every record well-formed.
    pub open spec fn wf(&self) -> bool {
        &&& self.ids_unique()
        &&& forall|i: int|
            0 <= i < self.spec_records().len() ==> (#[trigger] self.spec_records()[i]).wf()
    }

    /// An empty table with the given duplicate-disconnect policy.
    pub fn new(policy: DisconnectPolicy) -> (r: CallTable)
        ensures
            r.wf(),
            r.spec_policy() == policy,
            r.spec_records().len() == 0,
    {
        CallTable { machine: CallStateMachine::new(policy), records: Vec::new() }
    }

    /// The number of live records.
    pub fn len(&self) -> (r: usize)
        ensures
            r == self.spec_records().len(),
    {
        self.records.len()
    }

    /// The index of the live record with this identifier, if any.
    fn index_of(&self, id: CallId) -> (r: Option<usize>)
        ensures
            r matches Some(i) ==> i < self.spec_records().len() && self.spec_records()[
                i as int
            ].spec_id() == id,
            r is None ==> !self.contains_id(id),
    {
        let n: usize = self.records.len();
        let mut i: usize = 0;
        while i < n
            invariant
                n == self.spec_records().len(),
                i <= n,
                forall|j: int| 0 <= j < i ==> #[trigger] self.spec_records()[j].spec_id() != id,
            decreases n - i,
        {
            if self.records[i].id() == id {
                return Some(i);
            }
            i += 1;
        }
        None
    }

    /// Whether a live record with this identifier exists.
    pub fn contains(&self, id: CallId) -> (r: bool)
        ensures
            r == self.contains_id(id),
    {
        self.index_of(id).is_some()
    }

    /// The current record for this identifier, if it is live.
    pub fn record(&self, id: CallId) -> (r: Option<CallRecord>)
        ensures
            r is Some <==> self.contains_id(id),
            r matches Some(rec) ==> exists|i: int|
                0 <= i < self.spec_records().len() && #[trigger] self.spec_records()[i] == rec
                    && rec.spec_id() == id,
    {
        match self.index_of(id) {
            Some(i) => Some(self.records[i]),
            None => None,
        }
    }

    /// Create a fresh record in `Idle` for a new call. Identifiers are
    /// never reused while a record for them is live, so the caller must
    /// not pass the identifier of a live record.
    pub fn create_call(&mut self, id: CallId, direction: CallDirection)
        requires
            old(self).wf(),
            !old(self).contains_id(id),
        ensures
            final(self).wf(),
            final(self).spec_policy() == old(self).spec_policy(),
            final(self).spec_records().len() == old(self).spec_records().len() + 1,
            final(self).spec_records().drop_last() == old(self).spec_records(),
            final(self).spec_records().last().spec_id() == id,
            final(self).spec_records().last().spec_direction() == direction,
            final(self).spec_records().last().spec_state() is Idle,
            !final(self).spec_records().last().spec_ever_connected(),
            final(self).contains_id(id),
    {
        let rec = CallRecord::new(id, direction);
        self.records.push(rec);
        proof {
            assert(self.spec_records().drop_last() =~= old(self).spec_records());
            assert(self.spec_records().last() == rec);
            assert forall|i: int, j: int|
                0 <= i < j < self.spec_records().len() implies #[trigger] self.spec_records()[
                i
            ].spec_id() != #[trigger] self.spec_records()[j].spec_id() by {
                if j == self.spec_records().len() - 1 {
                    assert(old(self).spec_records()[i].spec_id() != id);
                }
            }
            assert(self.spec_records()[self.spec_records().len() - 1].spec_id() == id);
        }
    }

    /// Deliver one event to the call with this identifier. If no record is
    /// live, `UnknownCall` is returned and nothing changes; otherwise the
    /// record is stepped exactly as [`CallStateMachine::apply`] says, and
    /// every other record is untouched.
    pub fn apply_event(&mut self, id: CallId, event: Event) -> (r: Result<
        Vec<Directive>,
        TransitionError,
    >)
        requires
            old(self).wf(),
        ensures
            final(self).wf(),
            final(self).spec_policy() == old(self).spec_policy(),
            final(self).spec_records().len() == old(self).spec_records().len(),
            !old(self).contains_id(id) ==> *final(self) == *old(self) && r == Err::<
                Vec<Directive>,
                TransitionError,
            >(TransitionError::UnknownCall { id }),
            forall|i: int|
                0 <= i < old(self).spec_records().len() && #[trigger] old(self).spec_records()[
                    i
                ].spec_id() != id ==> final(self).spec_records()[i] == old(self).spec_records()[i],
            forall|i: int|
                0 <= i < old(self).spec_records().len() && #[trigger] old(self).spec_records()[
                    i
                ].spec_id() == id ==> {
                    let prev = old(self).spec_records()[i];
                    let cur = final(self).spec_records()[i];
                    &&& cur.spec_id() == prev.spec_id()
                    &&& cur.spec_direction() == prev.spec_direction()
                    &&& (r is Ok <==> accepts(
                        prev.spec_state(),
                        prev.spec_direction(),
                        prev.spec_ever_connected(),
                        old(self).spec_policy(),
                        event,
                    ))
                    &&& (r matches Ok(d) ==> cur.spec_state() == next_state(
                        prev.spec_state(),
                        prev.spec_ever_connected(),
                        event,
                    ) && cur.spec_ever_connected() == next_ever_connected(
                        prev.spec_state(),
                        prev.spec_ever_connected(),
                        event,
                    ) && d@ == emitted(prev.spec_state(), event))
                    &&& (r matches Err(e) ==> cur == prev && e == rejection(
                        prev.spec_state(),
                        event,
                    ))
                },
    {
        let idx: usize = match self.index_of(id) {
            Some(i) => i,
            None => {
                return Err(TransitionError::UnknownCall { id });
            },
        };
        let mut rec = self.records[idx];
        let r = self.machine.apply(&mut rec, event);
        self.records[idx] = rec;
        proof {
            assert forall|i: int|
                0 <= i < old(self).spec_records().len() && #[trigger] old(self).spec_records()[
                    i
                ].spec_id() == id implies i == idx by {
                if i != idx {
                    assert(old(self).spec_records()[i].spec_id() != old(self).spec_records()[
                        idx as int
                    ].spec_id());
                }
            }
        }
        r
    }

    /// Release the storage of a terminated call. The caller may release a
    /// call only after observing `Terminating` on it; if no record with
    /// this identifier is live, `UnknownCall` is returned.
    pub fn release(&mut self, id: CallId) -> (r: Result<(), TransitionError>)
        requires
            old(self).wf(),
            forall|i: int|
                0 <= i < old(self).spec_records().len() && #[trigger] old(self).spec_records()[
                    i
                ].spec_id() == id ==> old(self).spec_records()[i].spec_state() is Terminating,
        ensures
            final(self).wf(),
            final(self).spec_policy() == old(self).spec_policy(),
            r is Ok <==> old(self).contains_id(id),
            !old(self).contains_id(id) ==> *final(self) == *old(self) && r == Err::<
                (),
                TransitionError,
            >(TransitionError::UnknownCall { id }),
            r is Ok ==> exists|i: int|
                0 <= i < old(self).spec_records().len() && #[trigger] old(self).spec_records()[
                    i
                ].spec_id() == id && final(self).spec_records() == old(self).spec_records().remove(
                    i,
                ),
            !final(self).contains_id(id),
    {
        let idx: usize = match self.index_of(id) {
            Some(i) => i,
            None => {
                return Err(TransitionError::UnknownCall { id });
            },
        };
        self.records.remove(idx);
        proof {
            assert forall|i: int, j: int|
                0 <= i < j < self.spec_records().len() implies #[trigger] self.spec_records()[
                i
            ].spec_id() != #[trigger] self.spec_records()[j].spec_id() by {
                let oi: int = if i < idx { i } else { i + 1 };
                let oj: int = if j < idx { j } else { j + 1 };
                assert(self.spec_records()[i] == old(self).spec_records()[oi]);
                assert(self.spec_records()[j] == old(self).spec_records()[oj]);
            }
            assert forall|i: int|
                0 <= i < self.spec_records().len() implies !(#[trigger] self.spec_records()[
                i
            ].spec_id() == id) by {
                let oi: int = if i < idx { i } else { i + 1 };
                assert(self.spec_records()[i] == old(self).spec_records()[oi]);
                if oi != idx {
                    assert(old(self).spec_records()[oi].spec_id() != old(self).spec_records()[
                        idx as int
                    ].spec_id());
                }
            }
        }
        Ok(())
    }
}

} // verus!
