use vstd::prelude::*;

use crate::registry::{
    discovery_bytes, list_ops_name, Dispatcher, OpId, OpRegistry, RegisterError, LIST_OPS_ID,
};
use std::collections::HashMap;

use crate::rejections::{reject_transition, PromiseRejectEvent, RejectionTable};

verus! {

/// What a handler returns for one call.
pub enum Op<F> {
    /// The result bytes, handed back as the call's own return value.
    Sync(Vec<u8>),
    /// Work whose result bytes are delivered later through the receive
    /// callback; the context is not drained while it runs.
    Async(F),
    /// As `Async`, but the context may be drained while it runs.
    AsyncUnref(F),
}

/// An asynchronous operation in flight.
#[derive(Debug, Clone, Copy, PartialEq, Eq, Structural)]
pub struct PendingOp {
    /// Names this operation until it completes.
    pub ticket: u64,
    /// The operation that started it.
    pub op_id: OpId,
    /// Whether it may still run when the context is drained.
    pub unref: bool,
}

/// What became of a dispatched call.
pub enum Dispatched<F> {
    /// The operation answered at once.
    Sync(OpId, Vec<u8>),
    /// The operation goes on in the background under this ticket; the host
    /// drives the work and reports its result with `complete`.
    Pending(u64, F),
}

impl<F> Dispatched<F> {
    /// What guest `send` returns: the synchronous result, unless it is empty;
    /// asynchronous results arrive through the receive callback instead.
    pub fn send_return_value(&self) -> (r: Option<&Vec<u8>>)
        ensures
            self matches Dispatched::Sync(_, bytes) ==> {
                &&& bytes@.len() > 0 ==> r == Some(bytes)
                &&& bytes@.len() == 0 ==> r is None
            },
            self is Pending ==> r is None,
    {
        match self {
            Dispatched::Sync(_, bytes) => {
                if bytes.len() > 0 {
                    Some(bytes)
                } else {
                    None
                }
            },
            Dispatched::Pending(_, _) => None,
        }
    }
}

/// Misuse of the dispatch protocol by the host or by guest code.
#[derive(Debug, Clone, Copy, PartialEq, Eq, Structural)]
pub enum CoreError {
    /// No operation has this id.
    UnknownOp,
    /// A receive callback is registered already.
    RecvAlreadyRegistered,
    /// No operation in flight has this ticket.
    UnknownTicket,
    /// Every ticket that a `u64` can hold has been handed out.
    TicketsExhausted,
}

/// No operation that keeps the context alive is in flight.
pub open spec fn drained(pending: Seq<PendingOp>) -> bool {
    forall|i: int| 0 <= i < pending.len() ==> pending[i].unref
}

/// Some operation in flight has the ticket `ticket`.
pub open spec fn has_ticket(pending: Seq<PendingOp>, ticket: u64) -> bool {
    exists|i: int| 0 <= i < pending.len() && pending[i].ticket == ticket
}

/// Each ticket in flight was handed out before `next_ticket`, and no two
/// operations in flight share one.
pub open spec fn tickets_fresh(pending: Seq<PendingOp>, next_ticket: u64) -> bool {
    &&& forall|i: int| 0 <= i < pending.len() ==> pending[i].ticket < next_ticket
    &&& forall|i: int, j: int| 0 <= i < j < pending.len() ==> pending[i].ticket != pending[j].ticket
}

/// Where a call goes: the built-in listing answers here, with its reply; any
/// other id goes to its host handler.
pub enum Route<'a, H> {
    Reply(Vec<u8>),
    Call(&'a H),
}

/// The bookkeeping of one execution context: its operations, its receive
/// callback, its operations in flight, and its unhandled rejections.
pub struct IsolateCore<H, V> {
    op_registry: OpRegistry<H>,
    has_recv_cb: bool,
    pending_ops: Vec<PendingOp>,
    next_ticket: u64,
    rejections: RejectionTable<V>,
}

impl<H, V> IsolateCore<H, V> {
    /// The registered operation names, in the order of their ids.
    pub closed spec fn op_names(&self) -> Seq<Seq<char>> {
        self.op_registry.names()
    }

    /// The dispatchers, in the order of their ids.
    pub closed spec fn dispatchers(&self) -> Seq<Dispatcher<H>> {
        self.op_registry.dispatchers()
    }

    /// Whether guest code has registered its receive callback.
    pub closed spec fn recv_registered(&self) -> bool {
        self.has_recv_cb
    }

    /// The asynchronous operations in flight, oldest first.
    pub closed spec fn pending(&self) -> Seq<PendingOp> {
        self.pending_ops@
    }

    /// The ticket that the next asynchronous operation will get.
    pub closed spec fn next_ticket(&self) -> u64 {
        self.next_ticket
    }

    /// The unhandled rejections, by promise identity.
    pub closed spec fn rejections(&self) -> Map<i32, V> {
        self.rejections@
    }

    /// The discovery reply of this context.
    pub open spec fn discovery(&self) -> Seq<u8> {
        discovery_bytes(self.op_names())
    }

    /// The registry's and the rejection table's own invariants.
    pub closed spec fn parts_wf(&self) -> bool {
        self.op_registry.wf()
    }

    /// Id 0 is the built-in listing and every other id a host handler, names
    /// are unique, and each ticket in flight is unique and was handed out.
    pub open spec fn wf(&self) -> bool {
        &&& self.parts_wf()
        &&& self.op_names().len() == self.dispatchers().len()
        &&& 1 <= self.op_names().len() <= u32::MAX as int + 1
        &&& self.op_names()[0] == list_ops_name()
        &&& self.dispatchers()[0] is ListOps
        &&& forall|i: int| 1 <= i < self.dispatchers().len() ==> self.dispatchers()[i] is Handler
        &&& forall|i: int, j: int|
            0 <= i < j < self.op_names().len() ==> self.op_names()[i] != self.op_names()[j]
        &&& tickets_fresh(self.pending(), self.next_ticket())
    }

    /// A fresh context: only the built-in listing is registered, nothing is
    /// in flight and nothing is rejected.
    pub fn new() -> (r: Self)
        ensures
            r.wf(),
            r.op_names() == seq![list_ops_name()],
            r.dispatchers() == seq![Dispatcher::<H>::ListOps],
            !r.recv_registered(),
            r.pending() == Seq::<PendingOp>::empty(),
            r.next_ticket() == 0,
            r.rejections() == Map::<i32, V>::empty(),
    {
        IsolateCore {
            op_registry: OpRegistry::new(),
            has_recv_cb: false,
            pending_ops: Vec::new(),
            next_ticket: 0,
            rejections: RejectionTable::new(),
        }
    }

    /// Registers a host operation; see `OpRegistry::register`.
    pub fn register_op(&mut self, name: &str, op: H) -> (r: Result<OpId, RegisterError>)
        requires
            old(self).wf(),
        ensures
            final(self).wf(),
            old(self).op_names().contains(name@) ==> r == Err::<OpId, RegisterError>(
                RegisterError::AlreadyRegistered,
            ),
            !old(self).op_names().contains(name@) && old(self).op_names().len() > u32::MAX
                ==> r == Err::<OpId, RegisterError>(RegisterError::IdsExhausted),
            r is Err ==> final(self).op_names() == old(self).op_names() && final(self).dispatchers()
                == old(self).dispatchers(),
            r matches Ok(id) ==> {
                &&& !old(self).op_names().contains(name@)
                &&& id == old(self).op_names().len()
                &&& final(self).op_names() == old(self).op_names().push(name@)
                &&& final(self).dispatchers() == old(self).dispatchers().push(
                    Dispatcher::Handler(op),
                )
            },
            !old(self).op_names().contains(name@) && old(self).op_names().len() <= u32::MAX
                ==> r is Ok,
            final(self).recv_registered() == old(self).recv_registered(),
            final(self).pending() == old(self).pending(),
            final(self).next_ticket() == old(self).next_ticket(),
            final(self).rejections() == old(self).rejections(),
    {
        self.op_registry.register(name, op)
    }

    /// The id under which `name` is registered, if it is.
    pub fn op_id_of(&self, name: &str) -> (r: Option<OpId>)
        requires
            self.wf(),
        ensures
            r is None <==> !self.op_names().contains(name@),
            r matches Some(id) ==> id < self.op_names().len() && self.op_names()[id as int]
                == name@,
    {
        let r = self.op_registry.id_of(name);
        proof {
            if r is None && self.op_names().contains(name@) {
                let i = choose|i: int|
                    0 <= i < self.op_names().len() && self.op_names()[i] == name@;
                assert(exists|i: int|
                    0 <= i < self.op_registry.names().len() && self.op_registry.names()[i]
                        == name@);
            }
        }
        r
    }

    /// Registers guest code's receive callback; there can be only one.
    pub fn set_recv_callback(&mut self) -> (r: Result<(), CoreError>)
        requires
            old(self).wf(),
        ensures
            final(self).wf(),
            old(self).recv_registered() <==> r == Err::<(), CoreError>(
                CoreError::RecvAlreadyRegistered,
            ),
            !old(self).recv_registered() <==> r is Ok,
            final(self).recv_registered(),
            final(self).op_names() == old(self).op_names(),
            final(self).dispatchers() == old(self).dispatchers(),
            final(self).pending() == old(self).pending(),
            final(self).next_ticket() == old(self).next_ticket(),
            final(self).rejections() == old(self).rejections(),
    {
        if self.has_recv_cb {
            Err(CoreError::RecvAlreadyRegistered)
        } else {
            self.has_recv_cb = true;
            Ok(())
        }
    }

    /// Where a call with `op_id` goes: id 0 is answered here with the
    /// discovery reply; another registered id goes to its handler.
    pub fn route<'a>(&'a self, op_id: OpId) -> (r: Result<Route<'a, H>, CoreError>)
        requires
            self.wf(),
        ensures
            op_id >= self.dispatchers().len() ==> r == Err::<Route<'a, H>, CoreError>(
                CoreError::UnknownOp,
            ),
            op_id == LIST_OPS_ID ==> (r matches Ok(Route::Reply(bytes)) && bytes@ == self.discovery()),
            0 < op_id < self.dispatchers().len() ==> (self.dispatchers()[op_id as int] matches Dispatcher::Handler(h)
                && r == Ok::<Route<'a, H>, CoreError>(Route::Call(&h))),
    {
        match self.op_registry.get(op_id) {
            Some(Dispatcher::ListOps) => Ok(Route::Reply(self.op_registry.json_map())),
            Some(Dispatcher::Handler(h)) => Ok(Route::Call(h)),
            None => Err(CoreError::UnknownOp),
        }
    }

    /// The reply of the built-in listing: every operation name with its id.
    pub fn list_ops(&self) -> (r: Vec<u8>)
        requires
            self.wf(),
        ensures
            r@ == self.discovery(),
    {
        self.op_registry.json_map()
    }

    /// Takes what the handler of `op_id` returned: a synchronous result is
    /// answered at once; asynchronous work is put in flight under a new
    /// ticket.
    pub fn accept<F>(&mut self, op_id: OpId, op: Op<F>) -> (r: Result<Dispatched<F>, CoreError>)
        requires
            old(self).wf(),
        ensures
            final(self).wf(),
            final(self).op_names() == old(self).op_names(),
            final(self).dispatchers() == old(self).dispatchers(),
            final(self).recv_registered() == old(self).recv_registered(),
            final(self).rejections() == old(self).rejections(),
            op_id >= old(self).dispatchers().len() ==> r is Err && r->Err_0 == CoreError::UnknownOp,
            op_id < old(self).dispatchers().len() ==> match op {
                Op::Sync(bytes) => {
                    &&& r matches Ok(Dispatched::Sync(id, out)) && id == op_id && out@ == bytes@
                    &&& final(self).pending() == old(self).pending()
                    &&& final(self).next_ticket() == old(self).next_ticket()
                },
                Op::Async(work) => Self::spawned(*old(self), *final(self), op_id, false, work, r),
                Op::AsyncUnref(work) => Self::spawned(
                    *old(self),
                    *final(self),
                    op_id,
                    true,
                    work,
                    r,
                ),
            },
            r is Err ==> final(self).pending() == old(self).pending() && final(self).next_ticket()
                == old(self).next_ticket(),
    {
        if op_id as usize >= self.op_registry.len() {
            return Err(CoreError::UnknownOp);
        }
        match op {
            Op::Sync(bytes) => Ok(Dispatched::Sync(op_id, bytes)),
            Op::Async(work) => self.spawn(op_id, false, work),
            Op::AsyncUnref(work) => self.spawn(op_id, true, work),
        }
    }

    /// `after` is `before` with `work` put in flight for `op_id` under the
    /// next ticket, unless the tickets ran out.
    pub open spec fn spawned<F>(
        before: Self,
        after: Self,
        op_id: OpId,
        unref: bool,
        work: F,
        r: Result<Dispatched<F>, CoreError>,
    ) -> bool {
        if before.next_ticket() == u64::MAX {
            &&& r is Err && r->Err_0 == CoreError::TicketsExhausted
            &&& after.pending() == before.pending()
            &&& after.next_ticket() == before.next_ticket()
        } else {
            &&& r is Ok && r->Ok_0 == Dispatched::Pending(before.next_ticket(), work)
            &&& after.pending() == before.pending().push(
                PendingOp { ticket: before.next_ticket(), op_id, unref },
            )
            &&& after.next_ticket() == before.next_ticket() + 1
        }
    }

    fn spawn<F>(&mut self, op_id: OpId, unref: bool, work: F) -> (r: Result<Dispatched<F>, CoreError>)
        requires
            old(self).wf(),
        ensures
            final(self).wf(),
            final(self).op_names() == old(self).op_names(),
            final(self).dispatchers() == old(self).dispatchers(),
            final(self).recv_registered() == old(self).recv_registered(),
            final(self).rejections() == old(self).rejections(),
            Self::spawned(*old(self), *final(self), op_id, unref, work, r),
    {
        if self.next_ticket == u64::MAX {
            return Err(CoreError::TicketsExhausted);
        }
        let ticket = self.next_ticket;
        self.pending_ops.push(PendingOp { ticket, op_id, unref });
        self.next_ticket = ticket + 1;
        Ok(Dispatched::Pending(ticket, work))
    }

    /// Takes the result of the operation in flight under `ticket`: it is no
    /// longer in flight, and `(op_id, result)` is what guest code's receive
    /// callback gets.
    pub fn complete(&mut self, ticket: u64, result: Vec<u8>) -> (r: Result<
        (OpId, Vec<u8>),
        CoreError,
    >)
        requires
            old(self).wf(),
        ensures
            final(self).wf(),
            final(self).op_names() == old(self).op_names(),
            final(self).dispatchers() == old(self).dispatchers(),
            final(self).recv_registered() == old(self).recv_registered(),
            final(self).rejections() == old(self).rejections(),
            final(self).next_ticket() == old(self).next_ticket(),
            !has_ticket(old(self).pending(), ticket) <==> r == Err::<(OpId, Vec<u8>), CoreError>(
                CoreError::UnknownTicket,
            ),
            !has_ticket(old(self).pending(), ticket) ==> final(self).pending() == old(
                self,
            ).pending(),
            !has_ticket(final(self).pending(), ticket),
            forall|i: int|
                0 <= i < old(self).pending().len() && #[trigger] old(self).pending()[i].ticket
                    == ticket ==> {
                    &&& r is Ok
                    &&& r->Ok_0.0 == old(self).pending()[i].op_id
                    &&& r->Ok_0.1@ == result@
                    &&& final(self).pending() == old(self).pending().remove(i)
                },
    {
        let mut i: usize = 0;
        while i < self.pending_ops.len()
            invariant
                self.wf(),
                *self == *old(self),
                0 <= i <= self.pending_ops@.len(),
                forall|j: int| 0 <= j < i ==> self.pending_ops@[j].ticket != ticket,
            decreases self.pending_ops@.len() - i,
        {
            if self.pending_ops[i].ticket == ticket {
                let ghost before = self.pending_ops@;
                let done = self.pending_ops.remove(i);
                proof {
                    lemma_ticket_names_one_op(old(self), i as int);
                    let s = self.pending_ops@;
                    assert(s == before.remove(i as int));
                    assert forall|a: int, b: int| 0 <= a < b < s.len() implies s[a].ticket
                        != s[b].ticket by {
                        let a0 = if a < i { a } else { a + 1 };
                        let b0 = if b < i { b } else { b + 1 };
                        assert(before[a0].ticket != before[b0].ticket);
                    }
                    assert forall|a: int| 0 <= a < s.len() implies s[a].ticket
                        < self.next_ticket by {
                        let a0 = if a < i { a } else { a + 1 };
                        assert(before[a0].ticket < self.next_ticket);
                    }
                }
                return Ok((done.op_id, result));
            }
            i = i + 1;
        }
        Err(CoreError::UnknownTicket)
    }

    /// Whether an operation that keeps the context alive is in flight.
    pub fn has_pending_ops(&self) -> (r: bool)
        requires
            self.wf(),
        ensures
            r == !drained(self.pending()),
    {
        let mut i: usize = 0;
        while i < self.pending_ops.len()
            invariant
                0 <= i <= self.pending_ops@.len(),
                forall|j: int| 0 <= j < i ==> self.pending_ops@[j].unref,
            decreases self.pending_ops@.len() - i,
        {
            if !self.pending_ops[i].unref {
                return true;
            }
            i = i + 1;
        }
        false
    }

    /// The number of operations in flight, unref'd ones included.
    pub fn pending_count(&self) -> (r: usize)
        ensures
            r == self.pending().len(),
    {
        self.pending_ops.len()
    }

    /// Applies what the engine reported about the promise `promise_id`.
    pub fn on_promise_reject(&mut self, promise_id: i32, event: PromiseRejectEvent<V>)
        requires
            old(self).wf(),
        ensures
            final(self).wf(),
            final(self).rejections() == reject_transition(old(self).rejections(), promise_id, event),
            final(self).op_names() == old(self).op_names(),
            final(self).dispatchers() == old(self).dispatchers(),
            final(self).recv_registered() == old(self).recv_registered(),
            final(self).pending() == old(self).pending(),
            final(self).next_ticket() == old(self).next_ticket(),
    {
        self.rejections.on_event(promise_id, event);
    }

    /// The number of unhandled rejections recorded now.
    pub fn unhandled_count(&self) -> (r: usize)
        requires
            self.wf(),
        ensures
            r == self.rejections().len(),
    {
        self.rejections.len()
    }

    /// Whether the context has finished: `None` while an operation that keeps
    /// it alive is in flight; then `Ok` if no rejection went unhandled, or
    /// else the table of unhandled rejections, which leaves the context.
    pub fn poll_completion(&mut self) -> (r: Option<Result<(), HashMap<i32, V>>>)
        requires
            old(self).wf(),
        ensures
            final(self).wf(),
            final(self).op_names() == old(self).op_names(),
            final(self).dispatchers() == old(self).dispatchers(),
            final(self).recv_registered() == old(self).recv_registered(),
            final(self).pending() == old(self).pending(),
            final(self).next_ticket() == old(self).next_ticket(),
            !drained(old(self).pending()) ==> r is None && final(self).rejections() == old(
                self,
            ).rejections(),
            drained(old(self).pending()) && old(self).rejections() == Map::<i32, V>::empty() ==> r == Some(
                Ok::<(), HashMap<i32, V>>(()),
            ),
            drained(old(self).pending()) && old(self).rejections() != Map::<i32, V>::empty() ==> {
                &&& r matches Some(Err(list)) && list@ == old(self).rejections()
                &&& final(self).rejections() == Map::<i32, V>::empty()
            },
            drained(old(self).pending()) ==> final(self).rejections() == Map::<i32, V>::empty(),
    {
        if self.has_pending_ops() {
            return None;
        }
        if self.rejections.is_empty() {
            return Some(Ok(()));
        }
        let list = self.rejections.take_all();
        Some(Err(list))
    }
}

/// A ticket names one operation in flight: the result handed in under it is
/// delivered with the id of the operation that was given that ticket, and
/// once `complete` took it, the ticket names nothing any more.
pub proof fn lemma_ticket_names_one_op<H, V>(core: &IsolateCore<H, V>, i: int)
    requires
        core.wf(),
        0 <= i < core.pending().len(),
    ensures
        forall|j: int|
            0 <= j < core.pending().len() && core.pending()[j].ticket == core.pending()[i].ticket
                ==> j == i,
{
    assert forall|j: int|
        0 <= j < core.pending().len() && core.pending()[j].ticket
            == core.pending()[i].ticket implies j == i by {
        if j < i {
            assert(core.pending()[j].ticket != core.pending()[i].ticket);
        } else if i < j {
            assert(core.pending()[i].ticket != core.pending()[j].ticket);
        }
    }
}

/// Discovery is idempotent within one context: its reply depends on the
/// registered names alone, and no step of the runtime (`accept`, `complete`,
/// `set_recv_callback`, `on_promise_reject`, `poll_completion`) changes them,
/// so asking twice gives the same name-to-id mapping.
pub proof fn lemma_discovery_idempotent<H, V>(before: &IsolateCore<H, V>, after: &IsolateCore<H, V>)
    requires
        after.op_names() == before.op_names(),
    ensures
        after.discovery() == before.discovery(),
{
}

} // verus!
