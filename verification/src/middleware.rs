//! The middleware chain: an ordered list of handlers, fixed at construction
//! time, run strictly in order on each dequeued context — handler `i + 1`
//! starts only once handler `i` has returned, with no parallel fan-out and no
//! built-in short-circuit. A handler that wants to stop downstream processing
//! must encode that in the context itself.
//!
//! Handlers may hand work off elsewhere (an outbound send, a detached task);
//! completion of the chain says nothing about completion or success of such
//! work — the chain's contract speaks only of the contexts handed from one
//! handler to the next.

use vstd::prelude::*;

use crate::context::{UnifyedContext, UserData};
use crate::queue::DispatchQueue;

verus! {

/// One handler: a total transformation of the unified context. Users
/// implement this for their own handler types; `transformed` is whatever the
/// implementation promises of its result.
pub trait Handler: Sized {
    /// The relation the handler establishes between the context it receives
    /// and the context it returns; a handler that promises nothing leaves it
    /// at the trivial relation.
    open spec fn transformed(&self, ctx: UnifyedContext, out: UnifyedContext) -> bool {
        true
    }

    fn handle(&self, ctx: UnifyedContext) -> (out: UnifyedContext)
        ensures
            self.transformed(ctx, out),
    ;
}

/// The trace relation of one chain run: `trace` holds the context before and
/// after each handler, and consecutive entries are related by the respective
/// handler's promise, in construction order.
pub open spec fn chain_linked<H: Handler>(handlers: Seq<H>, trace: Seq<UnifyedContext>) -> bool {
    &&& trace.len() == handlers.len() + 1
    &&& forall|i: int|
        #![trigger handlers[i]]
        0 <= i < handlers.len() ==> handlers[i].transformed(trace[i], trace[i + 1])
}

/// An ordered, immutable-after-startup sequence of handlers.
pub struct MiddlewareChain<H: Handler> {
    middlewares: Vec<H>,
}

impl<H: Handler> MiddlewareChain<H> {
    /// The handlers, in construction order.
    pub closed spec fn handlers(self) -> Seq<H> {
        self.middlewares@
    }

    /// Creates an empty chain.
    pub fn new() -> (chain: Self)
        ensures
            chain.handlers() =~= Seq::<H>::empty(),
    {
        MiddlewareChain { middlewares: Vec::new() }
    }

    /// Appends one handler; it will run after every handler added before it.
    pub fn add_middleware(&mut self, middleware: H)
        ensures
            final(self).handlers() == old(self).handlers().push(middleware),
    {
        self.middlewares.push(middleware);
    }

    /// Runs every handler on the context, strictly in construction order,
    /// each one starting only once the previous one returned. The result is
    /// the end of a trace that threads the context through every handler's
    /// promise in turn.
    pub fn execute(&self, ctx: UnifyedContext) -> (out: UnifyedContext)
        ensures
            exists|trace: Seq<UnifyedContext>|
                {
                    &&& #[trigger] chain_linked(self.handlers(), trace)
                    &&& trace.first() == ctx
                    &&& trace.last() == out
                },
    {
        let ghost start = ctx;
        let mut cur = ctx;
        let ghost mut trace = seq![start];
        let n = self.middlewares.len();
        let mut i: usize = 0;
        while i < n
            invariant
                n == self.handlers().len(),
                i <= n,
                trace.len() == i + 1,
                trace.first() == start,
                trace.last() == cur,
                forall|j: int|
                    0 <= j < i ==> #[trigger] self.handlers()[j].transformed(trace[j], trace[j + 1]),
            decreases n - i,
        {
            cur = self.middlewares[i].handle(cur);
            proof {
                trace = trace.push(cur);
            }
            i += 1;
        }
        proof {
            assert(chain_linked(self.handlers(), trace));
        }
        cur
    }
}

/// One worker turn: take the front context off the queue, if any, and run the
/// whole chain on it. A worker processes one context at a time; the queue
/// shrinks by exactly the context the worker took.
pub fn run_worker_step<H: Handler>(
    queue: &mut DispatchQueue,
    chain: &MiddlewareChain<H>,
) -> (processed: Option<UnifyedContext>)
    requires
        old(queue).wf(),
    ensures
        final(queue).wf(),
        final(queue).cap() == old(queue).cap(),
        old(queue)@.len() == 0 ==> processed is None && final(queue)@ == old(queue)@,
        old(queue)@.len() > 0 ==> {
            &&& final(queue)@ == old(queue)@.drop_first()
            &&& processed matches Some(out) && exists|trace: Seq<UnifyedContext>|
                {
                    &&& #[trigger] chain_linked(chain.handlers(), trace)
                    &&& trace.first() == old(queue)@[0]
                    &&& trace.last() == out
                }
        },
{
    match queue.dequeue() {
        Some(ctx) => Some(chain.execute(ctx)),
        None => None,
    }
}

/// The list of markers the user-data slot holds: the strings of a list value,
/// and no markers for every other value.
pub open spec fn marker_trail(d: UserData) -> Seq<Seq<char>> {
    match d {
        UserData::List(items) => items@.map_values(|s: String| s@),
        _ => Seq::empty(),
    }
}

/// A handler that appends one fixed marker to the context's user-data list
/// and changes nothing else about the slot's other fields.
pub struct MarkerHandler {
    pub marker: String,
}

impl Handler for MarkerHandler {
    /// The result is the input with this handler's marker appended to the
    /// user-data list.
    open spec fn transformed(&self, ctx: UnifyedContext, out: UnifyedContext) -> bool {
        &&& marker_trail(out.data) == marker_trail(ctx.data).push(self.marker@)
        &&& out == (UnifyedContext { data: out.data, ..ctx })
    }

    fn handle(&self, ctx: UnifyedContext) -> (out: UnifyedContext) {
        let mut items: Vec<String> = match ctx.data {
            UserData::List(items) => items,
            _ => Vec::new(),
        };
        items.push(self.marker.clone());
        proof {
            assert(marker_trail(UserData::List(items)) =~= marker_trail(ctx.data).push(
                self.marker@,
            ));
        }
        UnifyedContext { data: UserData::List(items), ..ctx }
    }
}

/// What it means for a handler to append one fixed marker to the context's
/// user-data list, whatever context it is given.
pub open spec fn appends_marker<H: Handler>(h: H, marker: Seq<char>) -> bool {
    forall|c: UnifyedContext, r: UnifyedContext|
        #[trigger] h.transformed(c, r) ==> marker_trail(r.data) == marker_trail(c.data).push(
            marker,
        )
}

/// Chain ordering: when each handler appends its own marker to the context's
/// user-data list, one run of the chain leaves exactly the handlers' markers,
/// in construction order, after whatever the context held before — for every
/// input context and every run.
pub proof fn lemma_chain_markers<H: Handler>(
    handlers: Seq<H>,
    markers: Seq<Seq<char>>,
    trace: Seq<UnifyedContext>,
)
    requires
        chain_linked(handlers, trace),
        markers.len() == handlers.len(),
        forall|i: int| 0 <= i < handlers.len() ==> appends_marker(#[trigger] handlers[i], markers[i]),
    ensures
        marker_trail(trace.last().data) == marker_trail(trace.first().data) + markers,
    decreases handlers.len(),
{
    if handlers.len() == 0 {
        assert(marker_trail(trace.last().data) =~= marker_trail(trace.first().data) + markers);
    } else {
        let h2 = handlers.drop_first();
        let m2 = markers.drop_first();
        let t2 = trace.drop_first();
        assert(handlers[0].transformed(trace[0], trace[1]));
        assert(marker_trail(trace[1].data) == marker_trail(trace[0].data).push(markers[0]));
        assert forall|i: int| 0 <= i < h2.len() implies #[trigger] h2[i].transformed(
            t2[i],
            t2[i + 1],
        ) by {
            assert(handlers[i + 1].transformed(trace[i + 1], trace[i + 2]));
        }
        assert(chain_linked(h2, t2));
        lemma_chain_markers(h2, m2, t2);
        assert(marker_trail(trace.last().data) == marker_trail(trace[1].data) + m2);
        assert(marker_trail(trace.first().data).push(markers[0]) + m2 =~= marker_trail(
            trace.first().data,
        ) + markers);
    }
}

} // verus!
