//! The single-flight guard: at most one in-flight attempt per opportunity id.
//!
//! An attempt is admitted before its machine starts and retired when its
//! report is taken; a second admission of an id still in flight is refused
//! with `DuplicateExecution`.

use vstd::prelude::*;
use crate::plan::ExecError;
use crate::text::str_eq;

verus! {

/// The ids of the attempts currently in flight.
pub struct FlightTable {
    ids: Vec<String>,
}

impl FlightTable {
    /// Whether an attempt for `id` is in flight.
    pub closed spec fn contains_id(self, id: Seq<char>) -> bool {
        exists|i: int| 0 <= i < self.ids@.len() && self.ids@[i]@ == id
    }

    /// No id is held twice.
    pub closed spec fn wf(self) -> bool {
        forall|i: int, j: int|
            #![trigger self.ids@[i], self.ids@[j]]
            0 <= i < j < self.ids@.len() ==> self.ids@[i]@ != self.ids@[j]@
    }

    /// An empty table: nothing is in flight.
    pub fn new() -> (t: FlightTable)
        ensures
            t.wf(),
            forall|id: Seq<char>| !t.contains_id(id),
    {
        FlightTable { ids: Vec::new() }
    }

    /// Admit an attempt for `id`.
    ///
    /// Refused with `DuplicateExecution`, and the table left unchanged,
    /// exactly when an attempt for `id` is already in flight; on admission
    /// `id` is in flight and nothing else changes.
    pub fn begin(&mut self, id: &String) -> (r: Result<(), ExecError>)
        requires
            old(self).wf(),
        ensures
            final(self).wf(),
            r is Ok <==> !old(self).contains_id(id@),
            r is Err ==> r == Err::<(), _>(ExecError::DuplicateExecution) && *final(self) == *old(
                self,
            ),
            forall|x: Seq<char>|
                final(self).contains_id(x) <==> old(self).contains_id(x) || (r is Ok && x == id@),
    {
        let n = self.ids.len();
        let mut i: usize = 0;
        while i < n
            invariant
                old(self).wf(),
                *self == *old(self),
                n == self.ids@.len(),
                0 <= i <= n,
                forall|j: int| 0 <= j < i ==> #[trigger] self.ids@[j]@ != id@,
            decreases n - i,
        {
            if str_eq(self.ids[i].as_str(), id.as_str()) {
                proof {
                    assert(old(self).ids@[i as int]@ == id@);
                }
                return Err(ExecError::DuplicateExecution);
            }
            i = i + 1;
        }
        let ghost before = self.ids@;
        self.ids.push(id.clone());
        proof {
            assert forall|x: Seq<char>| #![auto]
                self.contains_id(x) <==> (old(self).contains_id(x) || x == id@) by {
                if self.contains_id(x) {
                    let w = choose|w: int| 0 <= w < self.ids@.len() && self.ids@[w]@ == x;
                    if w < before.len() {
                        assert(old(self).ids@[w]@ == x);
                    }
                }
                if old(self).contains_id(x) {
                    let w = choose|w: int| 0 <= w < before.len() && before[w]@ == x;
                    assert(self.ids@[w]@ == x);
                }
                if x == id@ {
                    assert(self.ids@[before.len() as int]@ == x);
                }
            }
            assert forall|a: int, b: int|
                #![trigger self.ids@[a], self.ids@[b]]
                0 <= a < b < self.ids@.len() implies self.ids@[a]@ != self.ids@[b]@ by {
                if b < before.len() {
                    assert(old(self).ids@[a]@ != old(self).ids@[b]@);
                } else {
                    assert(self.ids@[a]@ == before[a]@);
                    assert(before[a]@ != id@);
                    assert(self.ids@[b]@ == id@);
                }
            }
        }
        Ok(())
    }

    /// Retire the attempt for `id`, if one is in flight.
    pub fn finish(&mut self, id: &String)
        requires
            old(self).wf(),
        ensures
            final(self).wf(),
            forall|x: Seq<char>|
                final(self).contains_id(x) <==> old(self).contains_id(x) && x != id@,
    {
        let n = self.ids.len();
        let mut i: usize = 0;
        while i < n
            invariant
                old(self).wf(),
                *self == *old(self),
                n == self.ids@.len(),
                0 <= i <= n,
                forall|j: int| 0 <= j < i ==> #[trigger] self.ids@[j]@ != id@,
            decreases n - i,
        {
            if str_eq(self.ids[i].as_str(), id.as_str()) {
                let ghost before = self.ids@;
                let ghost k = i as int;
                self.ids.remove(i);
                proof {
                    before.remove_ensures(k);
                    assert forall|x: Seq<char>| #![auto]
                        self.contains_id(x) <==> (old(self).contains_id(x) && x != id@) by {
                        if self.contains_id(x) {
                            let w = choose|w: int| 0 <= w < self.ids@.len() && self.ids@[w]@ == x;
                            if w < k {
                                assert(self.ids@[w] == before[w]);
                                assert(old(self).ids@[w]@ == x);
                                assert(old(self).ids@[k]@ == id@);
                                assert(old(self).ids@[w]@ != old(self).ids@[k]@);
                            } else {
                                assert(self.ids@[w] == before[w + 1]);
                                assert(old(self).ids@[w + 1]@ == x);
                                assert(old(self).ids@[k]@ == id@);
                                assert(old(self).ids@[k]@ != old(self).ids@[w + 1]@);
                            }
                        }
                        if old(self).contains_id(x) && x != id@ {
                            let w = choose|w: int| 0 <= w < before.len() && before[w]@ == x;
                            if w < k {
                                assert(self.ids@[w]@ == x);
                            } else {
                                assert(w != k);
                                assert(self.ids@[w - 1] == before[w]);
                            }
                        }
                    }
                    assert forall|a: int, b: int|
                        #![trigger self.ids@[a], self.ids@[b]]
                        0 <= a < b < self.ids@.len() implies self.ids@[a]@ != self.ids@[b]@ by {
                        let oa = if a < k {
                            a
                        } else {
                            a + 1
                        };
                        let ob = if b < k {
                            b
                        } else {
                            b + 1
                        };
                        assert(self.ids@[a] == old(self).ids@[oa]);
                        assert(self.ids@[b] == old(self).ids@[ob]);
                        assert(old(self).ids@[oa]@ != old(self).ids@[ob]@);
                    }
                }
                return;
            }
            i = i + 1;
        }
        proof {
            assert forall|x: Seq<char>| #![auto]
                self.contains_id(x) <==> (old(self).contains_id(x) && x != id@) by {
                if self.contains_id(x) && x == id@ {
                    let w = choose|w: int| 0 <= w < self.ids@.len() && self.ids@[w]@ == x;
                    assert(self.ids@[w]@ != id@);
                }
            }
        }
    }
}

/// Single-flight law: once an attempt for an id has been admitted, the id is
/// in flight, and by `begin`'s contract a second admission of the same id is
/// refused with `DuplicateExecution` until the attempt is retired.
pub proof fn law_single_flight(t0: FlightTable, t1: FlightTable, id: Seq<char>)
    requires
        t0.wf(),
        !t0.contains_id(id),
        forall|x: Seq<char>| t1.contains_id(x) <==> t0.contains_id(x) || x == id,
    ensures
        t1.contains_id(id),
{
}

} // verus!
