//! The daemon client's table of calls waiting for an answer.
//!
//! Each call gets the next id; the reader task hands every answer to the
//! call with its id, once; when the socket closes every waiting call fails.
use vstd::prelude::*;
use crate::rpc::{RpcException, SOCKET_CLOSED};
use crate::text::{owned, to_chars, trim};

verus! {

/// The ids of the calls waiting for an answer, and the id of the next call.
pub struct PendingCalls {
    pub next_id: u64,
    pub ids: Vec<u64>,
}

impl PendingCalls {
    /// No id is waiting twice.
    pub open spec fn wf(&self) -> bool {
        self.ids@.no_duplicates()
    }

    /// The set of ids waiting for an answer.
    pub open spec fn waiting(&self) -> Set<u64> {
        self.ids@.to_set()
    }

    /// An empty table whose first call gets id 1.
    pub fn new() -> (r: PendingCalls)
        ensures
            r.wf(),
            r.next_id == 1,
            r.waiting() == Set::<u64>::empty(),
    {
        let r = PendingCalls { next_id: 1, ids: Vec::new() };
        assert(r.waiting() =~= Set::<u64>::empty());
        r
    }

    fn position(&self, id: u64) -> (r: Option<usize>)
        ensures
            match r {
                Some(i) => i < self.ids.len() && self.ids@[i as int] == id,
                None => !self.waiting().contains(id),
            },
    {
        let mut i: usize = 0;
        while i < self.ids.len()
            invariant
                0 <= i <= self.ids.len(),
                forall|j: int| 0 <= j < i ==> self.ids@[j] != id,
            decreases self.ids.len() - i,
        {
            if self.ids[i] == id {
                return Some(i);
            }
            i += 1;
        }
        None
    }

    /// Registers a call: it gets the next id (ids wrap around after the
    /// largest `u64`), which then waits for its answer.
    pub fn register(&mut self) -> (id: u64)
        requires
            old(self).wf(),
        ensures
            final(self).wf(),
            id == old(self).next_id,
            final(self).next_id == if id == u64::MAX { 0 } else { (id + 1) as u64 },
            final(self).waiting() == old(self).waiting().insert(id),
    {
        let id = self.next_id;
        self.next_id = if id == u64::MAX { 0 } else { id + 1 };
        if self.position(id).is_none() {
            let ghost before = self.ids@;
            self.ids.push(id);
            proof {
                assert(self.ids@ == before.push(id));
                assert forall|a: int, b: int| 0 <= a < self.ids@.len() && 0 <= b < self.ids@.len() && a != b
                    implies self.ids@[a] != self.ids@[b] by {
                    if a < before.len() && b < before.len() {
                    } else if a < before.len() {
                        assert(before.to_set().contains(before[a]));
                    } else {
                        assert(before.to_set().contains(before[b]));
                    }
                }
                assert forall|x: u64| #[trigger] self.ids@.to_set().contains(x) <==> before.to_set().insert(id).contains(x) by {
                    if self.ids@.to_set().contains(x) {
                        let j = choose|j: int| 0 <= j < self.ids@.len() && self.ids@[j] == x;
                        if j < before.len() {
                            assert(before.to_set().contains(before[j]));
                        }
                    }
                    if before.to_set().contains(x) {
                        let j = choose|j: int| 0 <= j < before.len() && before[j] == x;
                        assert(self.ids@[j] == x);
                    }
                    if x == id {
                        assert(self.ids@[before.len() as int] == x);
                    }
                }
                assert(self.ids@.to_set() =~= before.to_set().insert(id));
            }
        } else {
            assert(self.waiting().insert(id) =~= self.waiting());
        }
        id
    }

    /// Takes `id` out of the table; answers whether it was waiting.
    pub fn take(&mut self, id: u64) -> (r: bool)
        requires
            old(self).wf(),
        ensures
            final(self).wf(),
            r == old(self).waiting().contains(id),
            final(self).waiting() == old(self).waiting().remove(id),
            final(self).next_id == old(self).next_id,
    {
        match self.position(id) {
            None => {
                assert(self.waiting().remove(id) =~= self.waiting());
                false
            },
            Some(i) => {
                let ghost before = self.ids@;
                self.ids.remove(i);
                proof {
                    assert(self.ids@ == before.subrange(0, i as int) + before.subrange(i + 1, before.len() as int));
                    assert forall|a: int| 0 <= a < self.ids@.len()
                        implies self.ids@[a] == (if a < i { before[a] } else { before[a + 1] }) by {}
                    assert forall|a: int, b: int| 0 <= a < self.ids@.len() && 0 <= b < self.ids@.len() && a != b
                        implies self.ids@[a] != self.ids@[b] by {
                        let a2 = if a < i { a } else { a + 1 };
                        let b2 = if b < i { b } else { b + 1 };
                        assert(self.ids@[a] == before[a2]);
                        assert(self.ids@[b] == before[b2]);
                    }
                    assert forall|x: u64| #[trigger] self.ids@.to_set().contains(x) <==> before.to_set().remove(id).contains(x) by {
                        if self.ids@.to_set().contains(x) {
                            let j = choose|j: int| 0 <= j < self.ids@.len() && self.ids@[j] == x;
                            let j2 = if j < i { j } else { j + 1 };
                            assert(before[j2] == x);
                            assert(j2 != i);
                            assert(before.to_set().contains(x));
                        }
                        if before.to_set().remove(id).contains(x) {
                            let j = choose|j: int| 0 <= j < before.len() && before[j] == x;
                            assert(j != i);
                            let j2 = if j < i { j } else { j - 1 };
                            assert(self.ids@[j2] == x);
                        }
                    }
                    assert(self.ids@.to_set() =~= before.to_set().remove(id));
                }
                true
            },
        }
    }

    /// Delivers an answer: the call with its id is taken out and answered,
    /// once. An answer without id, or for no waiting call, is dropped.
    pub fn deliver(&mut self, id: Option<u64>) -> (r: bool)
        requires
            old(self).wf(),
        ensures
            final(self).wf(),
            final(self).next_id == old(self).next_id,
            match id {
                Some(i) => r == old(self).waiting().contains(i)
                    && final(self).waiting() == old(self).waiting().remove(i),
                None => !r && final(self).waiting() == old(self).waiting(),
            },
            // An answered call is no longer waiting, so a second answer with
            // its id is dropped: each call is answered once.
            id matches Some(i) ==> !final(self).waiting().contains(i),
    {
        match id {
            Some(i) => self.take(i),
            None => false,
        }
    }

    /// The socket closed: every waiting call is taken out, to fail.
    pub fn close(&mut self) -> (r: Vec<u64>)
        ensures
            r@.to_set() == old(self).waiting(),
            final(self).waiting() == Set::<u64>::empty(),
            final(self).wf(),
            final(self).next_id == old(self).next_id,
    {
        let mut r: Vec<u64> = Vec::new();
        std::mem::swap(&mut r, &mut self.ids);
        assert(self.ids@.to_set() =~= Set::<u64>::empty());
        r
    }
}

/// The failure of a call whose socket closed.
pub fn socket_closed() -> (r: RpcException)
    ensures
        r.code == SOCKET_CLOSED,
        r.message@ == "socket cerrado"@,
{
    RpcException { code: SOCKET_CLOSED, message: owned("socket cerrado") }
}

/// Whether a line read from the socket holds an answer to decode (blank
/// lines are skipped).
pub fn carries_answer(line: &str) -> (r: bool)
    ensures
        r == (crate::text::trimmed(line@).len() > 0),
{
    to_chars(trim(line)).len() > 0
}

} // verus!
