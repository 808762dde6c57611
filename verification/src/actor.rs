//! The storage actor: the sole owner of the store, serving statements
//! from a bounded first-in-first-out mailbox.
//!
//! The mailbox models backpressure: a send against a full mailbox does
//! not enqueue, does not error, and does not drop the message — it
//! hands the message back, and the sender waits until capacity frees
//! up. Messages are served strictly in the order they were enqueued.

use vstd::prelude::*;

use crate::errors::Error;
use crate::payload::Payload;
use crate::store::{spec_apply_rel, spec_sql, CoreStatement, Store};

verus! {

/// The message the storage actor accepts: one SQL statement.
#[derive(Debug)]
pub struct Query(pub String);

/// A statement in flight: its SQL text, as a real storage engine would
/// receive it, paired with its typed form.
#[derive(Debug)]
pub struct QueryMsg {
    pub query: Query,
    pub stmt: CoreStatement,
}

impl QueryMsg {
    /// The SQL text is exactly the statement's text.
    pub open spec fn wf(self) -> bool {
        self.query.0@ == spec_sql(self.stmt)
    }

    /// Wrap a typed statement with its SQL text.
    pub fn new(stmt: CoreStatement) -> (r: QueryMsg)
        ensures
            r.wf(),
            r.stmt == stmt,
    {
        let sql = stmt.to_sql();
        QueryMsg { query: Query(sql), stmt }
    }
}

/// A bounded first-in-first-out mailbox of statements.
#[derive(Debug)]
pub struct Mailbox {
    pub queue: Vec<QueryMsg>,
    pub capacity: usize,
}

impl Mailbox {
    /// A mailbox has room for at least one message.
    pub open spec fn wf(self) -> bool {
        self.capacity >= 1
    }

    /// An empty mailbox with this capacity.
    pub fn bounded(capacity: usize) -> (r: Mailbox)
        requires
            capacity >= 1,
        ensures
            r.wf(),
            r.capacity == capacity,
            r.queue@.len() == 0,
    {
        Mailbox { queue: Vec::new(), capacity }
    }

    /// How many messages wait in the mailbox.
    pub fn len(&self) -> (r: usize)
        ensures
            r == self.queue@.len(),
    {
        self.queue.len()
    }

    /// Whether the mailbox is saturated.
    pub fn is_full(&self) -> (r: bool)
        ensures
            r == (self.queue@.len() >= self.capacity),
    {
        self.queue.len() >= self.capacity
    }

    /// LAW (mailbox backpressure): a send against a saturated mailbox
    /// leaves the mailbox unchanged and hands the message back to the
    /// sender — it neither errors nor drops the message; the sender
    /// suspends until capacity frees up. A send against a mailbox with
    /// room appends the message at the back.
    pub fn try_send(&mut self, m: QueryMsg) -> (r: Option<QueryMsg>)
        ensures
            final(self).capacity == old(self).capacity,
            old(self).queue@.len() < old(self).capacity ==> final(self).queue@ == old(
                self,
            ).queue@.push(m) && r is None,
            old(self).queue@.len() >= old(self).capacity ==> final(self).queue@ == old(
                self,
            ).queue@ && (r matches Some(back) && back == m),
    {
        if self.queue.len() < self.capacity {
            self.queue.push(m);
            None
        } else {
            Some(m)
        }
    }

    /// Take the oldest waiting message, if any: strict first-in,
    /// first-out order.
    pub fn pop_next(&mut self) -> (r: Option<QueryMsg>)
        ensures
            final(self).capacity == old(self).capacity,
            old(self).queue@.len() == 0 ==> final(self).queue@ == old(self).queue@ && r is None,
            old(self).queue@.len() > 0 ==> final(self).queue@ == old(self).queue@.drop_first() && (
            r matches Some(m) && m == old(self).queue@.first()),
    {
        if self.queue.len() == 0 {
            None
        } else {
            let m = self.queue.remove(0);
            proof {
                assert(self.queue@ =~= old(self).queue@.drop_first());
            }
            Some(m)
        }
    }
}


/// The statements of a message sequence, oldest first.
pub open spec fn msgs_stmts(q: Seq<QueryMsg>) -> Seq<CoreStatement> {
    q.map_values(|m: QueryMsg| m.stmt)
}

/// The actor serves a sequence of messages in order: each statement is
/// applied to the store it finds, and its reply goes to its own
/// sender.
pub open spec fn spec_serve_rel(pre: Store, post: Store, stmts: Seq<CoreStatement>) -> bool
    decreases stmts.len(),
{
    if stmts.len() == 0 {
        post == pre
    } else {
        exists|mid: Store, r: Result<Payload, Error>|
            #[trigger] spec_apply_rel(pre, mid, stmts.first(), r) && spec_serve_rel(
                mid,
                post,
                stmts.drop_first(),
            )
    }
}

/// Serving one more message extends a served sequence.
proof fn lemma_serve_snoc(
    pre: Store,
    mid: Store,
    post: Store,
    stmts: Seq<CoreStatement>,
    st: CoreStatement,
    r: Result<Payload, Error>,
)
    requires
        spec_serve_rel(pre, mid, stmts),
        spec_apply_rel(mid, post, st, r),
    ensures
        spec_serve_rel(pre, post, stmts.push(st)),
    decreases stmts.len(),
{
    let ks = stmts.push(st);
    if stmts.len() == 0 {
        assert(mid == pre);
        assert(ks.first() == st);
        assert(ks.drop_first() =~= Seq::<CoreStatement>::empty());
        assert(spec_serve_rel(post, post, ks.drop_first()));
        assert(spec_serve_rel(pre, post, ks));
    } else {
        let (m1, r1) = choose|m1: Store, r1: Result<Payload, Error>|
            #[trigger] spec_apply_rel(pre, m1, stmts.first(), r1) && spec_serve_rel(
                m1,
                mid,
                stmts.drop_first(),
            );
        lemma_serve_snoc(m1, mid, post, stmts.drop_first(), st, r);
        assert(ks.first() == stmts.first());
        assert(ks.drop_first() =~= stmts.drop_first().push(st));
        assert(spec_serve_rel(m1, post, ks.drop_first()));
        assert(spec_serve_rel(pre, post, ks));
    }
}

/// The exclusive, sequential owner of the store. Every statement goes
/// through its mailbox; it never validates or authorizes — that is the
/// capability context's job — and treats every message as already
/// authorized.
#[derive(Debug)]
pub struct StorageActor {
    pub mailbox: Mailbox,
    pub store: Store,
}

impl StorageActor {
    pub open spec fn wf(self) -> bool {
        self.mailbox.wf()
    }

    /// No message is waiting.
    pub open spec fn idle(self) -> bool {
        self.mailbox.queue@.len() == 0
    }

    /// Spawn an actor over a store, with a mailbox of this capacity.
    pub fn start(store: Store, capacity: usize) -> (r: StorageActor)
        requires
            capacity >= 1,
        ensures
            r.wf(),
            r.idle(),
            r.mailbox.capacity == capacity,
            r.store == store,
    {
        StorageActor { mailbox: Mailbox::bounded(capacity), store }
    }

    /// Serve the oldest waiting message, applying it to the store and
    /// producing its reply.
    pub fn process_next(&mut self) -> (r: Option<Result<Payload, Error>>)
        ensures
            final(self).mailbox.capacity == old(self).mailbox.capacity,
            old(self).mailbox.queue@.len() == 0 ==> final(self).store == old(self).store
                && final(self).mailbox.queue@ == old(self).mailbox.queue@ && r is None,
            old(self).mailbox.queue@.len() > 0 ==> final(self).mailbox.queue@ == old(
                self,
            ).mailbox.queue@.drop_first() && (r matches Some(reply) && spec_apply_rel(
                old(self).store,
                final(self).store,
                old(self).mailbox.queue@.first().stmt,
                reply,
            )),
    {
        match self.mailbox.pop_next() {
            Some(msg) => Some(self.store.apply(msg.stmt)),
            None => None,
        }
    }


    /// LAW (mailbox backpressure, the waiting side): a sender whose
    /// message finds the mailbox saturated suspends while the actor
    /// serves exactly as many of the oldest waiting messages as it
    /// takes to free one slot — their replies go to their own senders
    /// — and the message is then enqueued exactly once at the back. It
    /// is never dropped and the send never errors.
    pub fn send_waiting(&mut self, m: QueryMsg)
        requires
            old(self).wf(),
        ensures
            final(self).wf(),
            final(self).mailbox.capacity == old(self).mailbox.capacity,
            ({
                let waited = if old(self).mailbox.queue@.len() < old(self).mailbox.capacity {
                    0int
                } else {
                    old(self).mailbox.queue@.len() + 1 - old(self).mailbox.capacity
                };
                &&& final(self).mailbox.queue@ == old(self).mailbox.queue@.skip(waited).push(m)
                &&& spec_serve_rel(
                    old(self).store,
                    final(self).store,
                    msgs_stmts(old(self).mailbox.queue@.take(waited)),
                )
            }),
    {
        let ghost q0 = old(self).mailbox.queue@;
        let ghost waited = if q0.len() < old(self).mailbox.capacity {
            0int
        } else {
            q0.len() + 1 - old(self).mailbox.capacity
        };
        let ghost mut j: int = 0;
        proof {
            assert(q0.skip(0) =~= q0);
            assert(q0.take(0) =~= Seq::<QueryMsg>::empty());
        }
        while self.mailbox.is_full()
            invariant
                self.mailbox.capacity == old(self).mailbox.capacity,
                self.mailbox.capacity >= 1,
                0 <= j <= waited,
                waited == if q0.len() < old(self).mailbox.capacity {
                    0int
                } else {
                    q0.len() + 1 - old(self).mailbox.capacity
                },
                j == q0.len() - self.mailbox.queue@.len(),
                self.mailbox.queue@ == q0.skip(j),
                spec_serve_rel(old(self).store, self.store, msgs_stmts(q0.take(j))),
            decreases self.mailbox.queue@.len(),
        {
            let ghost mid = self.store;
            let ghost front = self.mailbox.queue@.first();
            let reply = self.process_next();
            proof {
                assert(front == q0[j]);
                let r = reply.unwrap();
                assert(q0.take(j + 1) =~= q0.take(j).push(q0[j]));
                assert(msgs_stmts(q0.take(j + 1)) =~= msgs_stmts(q0.take(j)).push(q0[j].stmt));
                lemma_serve_snoc(
                    old(self).store,
                    mid,
                    self.store,
                    msgs_stmts(q0.take(j)),
                    q0[j].stmt,
                    r,
                );
                assert(self.mailbox.queue@ =~= q0.skip(j + 1));
                j = j + 1;
            }
        }
        let back = self.mailbox.try_send(m);
        proof {
            assert(j == waited);
            if back is Some {
                assert(false);
            }
        }
    }

    /// One complete round trip: enqueue the message, let the actor
    /// serve it, and hand back its reply. The caller suspends at the
    /// mailbox; with no other message waiting, the reply is the
    /// message's own.
    pub fn request(&mut self, m: QueryMsg) -> (r: Result<Payload, Error>)
        requires
            old(self).wf(),
            old(self).idle(),
        ensures
            final(self).wf(),
            final(self).idle(),
            final(self).mailbox.capacity == old(self).mailbox.capacity,
            spec_apply_rel(old(self).store, final(self).store, m.stmt, r),
    {
        let ghost stmt = m.stmt;
        let back = self.mailbox.try_send(m);
        match back {
            Some(_) => {
                // Unreachable: an idle well-formed mailbox always has room.
                proof {
                    assert(false);
                }
                Err(Error::PluginError("storage actor unreachable".to_owned()))
            },
            None => {
                match self.process_next() {
                    Some(reply) => reply,
                    None => {
                        proof {
                            assert(false);
                        }
                        Err(Error::PluginError("storage actor unreachable".to_owned()))
                    },
                }
            },
        }
    }
}

} // verus!
