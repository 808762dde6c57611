//! The capability context: the single authorization and marshaling
//! boundary between sandboxed plugin code and the host.
//!
//! Every effect a plugin may have goes through here: fetching,
//! debug output, subscribing, and database access. Read-mode database
//! access is gated host-side: the SQL is parsed and classified before
//! anything reaches the storage actor.

use vstd::prelude::*;

use crate::actor::{QueryMsg, StorageActor};
use crate::common::ViewType;
use crate::errors::Error;
use crate::payload::{Payload, Value};
use crate::sql::{check_read_only, spec_read_only_ok};
use crate::store::{spec_apply_rel, spec_bootstrap_sql, CoreStatement, Store, SubscriptionRow};

verus! {

/// Whether a capability call may only read, or may also mutate.
#[derive(Debug, Clone, Copy, PartialEq, Eq, Structural)]
pub enum ContextState {
    /// Read-only access: only pure query statements may pass.
    Ref,
    /// Mutable access: statements pass unexamined.
    RefMut,
}

/// A plugin's declared interest, as handed to `subscribe`: the event
/// namespace, the event kind, and the serialized matcher payload. The
/// subscribing plugin's name is added host-side.
#[derive(Debug, Clone, PartialEq, Eq)]
pub struct Subscription {
    pub event: String,
    pub event_type: String,
    pub data: String,
}

/// The fetch capability. The reference system's fetch is a passthrough
/// stub: it answers with the requested URL itself.
#[derive(Debug, Clone, PartialEq, Eq, Structural)]
pub struct Fetcher;

impl Fetcher {
    pub fn fetch(url: String) -> (r: String)
        ensures
            r@ == url@,
    {
        url
    }
}

/// The debug capability: a host-side log that always succeeds.
#[derive(Debug, Clone, PartialEq, Eq, Structural)]
pub struct Debugger;

impl Debugger {
    pub fn debug(log: &mut Vec<String>, output: String)
        ensures
            final(log).deep_view() == old(log).deep_view().push(output@),
    {
        log.push(output);
        proof {
            assert(final(log).deep_view() =~= old(log).deep_view().push(final(log)@.last()@));
        }
    }
}

/// The result of one capability round trip to the storage actor, as a
/// batch of one payload.
pub open spec fn spec_capability_rel(
    pre: Store,
    post: Store,
    stmt: CoreStatement,
    r: Result<Vec<Payload>, Error>,
) -> bool {
    match r {
        Ok(v) => v@.len() == 1 && spec_apply_rel(pre, post, stmt, Ok(v@[0])),
        Err(e) => spec_apply_rel(pre, post, stmt, Err(e)),
    }
}

/// The subscribe/emit capability.
#[derive(Debug, Clone, PartialEq, Eq, Structural)]
pub struct Emitter;

impl Emitter {
    /// Record a subscription for the calling plugin: the row travels
    /// to the storage actor as an insert statement.
    pub fn subscribe(actor: &mut StorageActor, plugin: &String, subscription: Subscription) -> (r:
        Result<Vec<Payload>, Error>)
        requires
            old(actor).wf(),
            old(actor).idle(),
        ensures
            final(actor).wf(),
            final(actor).idle(),
            final(actor).mailbox.capacity == old(actor).mailbox.capacity,
            spec_capability_rel(
                old(actor).store,
                final(actor).store,
                CoreStatement::InsertSubscription(
                    SubscriptionRow {
                        plugin: *plugin,
                        event: subscription.event,
                        event_type: subscription.event_type,
                        data: subscription.data,
                    },
                ),
                r,
            ),
    {
        let row = SubscriptionRow {
            plugin: plugin.clone(),
            event: subscription.event,
            event_type: subscription.event_type,
            data: subscription.data,
        };
        let msg = QueryMsg::new(CoreStatement::InsertSubscription(row));
        match actor.request(msg) {
            Ok(p) => {
                let mut v: Vec<Payload> = Vec::new();
                v.push(p);
                Ok(v)
            },
            Err(e) => Err(e),
        }
    }

    /// The emit capability is a passthrough stub in the reference
    /// system: it answers with its input.
    pub fn emit(url: String) -> (r: String)
        ensures
            r@ == url@,
    {
        url
    }
}

/// An ASCII whitespace character.
pub open spec fn spec_is_ws(c: char) -> bool {
    c == ' ' || c == '\n' || c == '\t' || c == '\r'
}

/// The string without its leading whitespace.
pub open spec fn spec_trim_start(s: Seq<char>) -> Seq<char>
    decreases s.len(),
{
    if s.len() > 0 && spec_is_ws(s.first()) {
        spec_trim_start(s.drop_first())
    } else {
        s
    }
}

/// The string without its trailing whitespace.
pub open spec fn spec_trim_end(s: Seq<char>) -> Seq<char>
    decreases s.len(),
{
    if s.len() > 0 && spec_is_ws(s.last()) {
        spec_trim_end(s.drop_last())
    } else {
        s
    }
}

/// The string without leading and trailing whitespace.
pub open spec fn spec_trimmed(s: Seq<char>) -> Seq<char> {
    spec_trim_end(spec_trim_start(s))
}

/// Whether the character at this position is ASCII whitespace.
fn is_ws_at(s: &str, i: usize) -> (r: bool)
    requires
        i < s@.len(),
    ensures
        r == spec_is_ws(s@[i as int]),
{
    let c = s.get_char(i);
    c == ' ' || c == '\n' || c == '\t' || c == '\r'
}

/// Strip leading and trailing ASCII whitespace.
fn trim_ws(s: &str) -> (r: String)
    ensures
        r@ == spec_trimmed(s@),
{
    let n = s.unicode_len();
    let mut a: usize = 0;
    proof {
        assert(s@.subrange(0, n as int) =~= s@);
    }
    while a < n && is_ws_at(s, a)
        invariant
            a <= n,
            n == s@.len(),
            spec_trim_start(s@) == spec_trim_start(s@.subrange(a as int, n as int)),
            forall|k: int| 0 <= k < a ==> spec_is_ws(#[trigger] s@[k]),
        decreases n - a,
    {
        proof {
            let tail = s@.subrange(a as int, n as int);
            assert(tail.first() == s@[a as int]);
            assert(tail.drop_first() =~= s@.subrange(a + 1 as int, n as int));
        }
        a = a + 1;
    }
    proof {
        let tail = s@.subrange(a as int, n as int);
        if a < n {
            assert(tail.first() == s@[a as int]);
        }
        assert(spec_trim_start(tail) == tail);
    }
    proof {
        assert(spec_trim_start(s@) == s@.subrange(a as int, n as int));
    }
    let mut b: usize = n;
    while b > a && is_ws_at(s, b - 1)
        invariant
            a <= b <= n,
            n == s@.len(),
            spec_trim_start(s@) == s@.subrange(a as int, n as int),
            spec_trim_start(s@) == spec_trim_start(s@.subrange(a as int, n as int)),
            a < n ==> !spec_is_ws(s@[a as int]),
            spec_trim_end(s@.subrange(a as int, n as int)) == spec_trim_end(
                s@.subrange(a as int, b as int),
            ),
        decreases b,
    {
        proof {
            let part = s@.subrange(a as int, b as int);
            assert(part.last() == s@[b - 1 as int]);
            assert(part.drop_last() =~= s@.subrange(a as int, b - 1 as int));
        }
        b = b - 1;
    }
    proof {
        let part = s@.subrange(a as int, b as int);
        if b > a {
            assert(part.last() == s@[b - 1 as int]);
        }
        assert(spec_trim_end(part) == part);
        assert(spec_trimmed(s@) == part);
    }
    s.substring_char(a, b).to_owned()
}

/// Which core statement a raw SQL string stands for, after trimming
/// surrounding whitespace. The modeled store recognizes the tasks
/// listing; everything else stays verbatim.
pub open spec fn spec_classify(sql: String) -> CoreStatement {
    if spec_is_tasks_listing(sql@) {
        CoreStatement::SelectTasks
    } else {
        CoreStatement::Raw(sql)
    }
}

/// Classify a raw SQL string into its typed core statement.
fn classify_raw(sql: String) -> (c: CoreStatement)
    ensures
        c == spec_classify(sql),
{
    let trimmed = trim_ws(sql.as_str());
    let canonical = trimmed.eq(&String::from_str("Select * from tasks")) || trimmed.eq(
        &String::from_str("select * from tasks"),
    );
    if canonical {
        CoreStatement::SelectTasks
    } else {
        CoreStatement::Raw(sql)
    }
}

/// The database capability.
#[derive(Debug, Clone, PartialEq, Eq, Structural)]
pub struct Database;

impl Database {
    /// Route one SQL string to the storage actor.
    ///
    /// In read-only mode the string is parsed first and rejected — as a
    /// database error, with the actor untouched — unless every parsed
    /// statement is a pure query. This gate is the system's only
    /// storage-authorization policy; the actor itself never authorizes.
    pub fn query(actor: &mut StorageActor, sql: String, ctx_state: ContextState) -> (r: Result<
        Vec<Payload>,
        Error,
    >)
        requires
            old(actor).wf(),
            old(actor).idle(),
        ensures
            final(actor).wf(),
            final(actor).idle(),
            final(actor).mailbox.capacity == old(actor).mailbox.capacity,
            ctx_state is Ref && !spec_read_only_ok(sql@) ==> final(actor).store == old(
                actor,
            ).store && final(actor).mailbox.queue@ == old(actor).mailbox.queue@ && (r matches Err(
                e,
            ) && e matches Error::DatabaseError(_)),
            ctx_state is Ref && spec_read_only_ok(sql@) && spec_is_tasks_listing(sql@)
                ==> spec_capability_rel(
                old(actor).store,
                final(actor).store,
                CoreStatement::SelectTasks,
                r,
            ),
            ctx_state is Ref && spec_read_only_ok(sql@) && !spec_is_tasks_listing(sql@)
                ==> spec_raw_capability_rel(old(actor).store, final(actor).store, sql@, r),
            ctx_state is RefMut && spec_is_tasks_listing(sql@) ==> spec_capability_rel(
                old(actor).store,
                final(actor).store,
                CoreStatement::SelectTasks,
                r,
            ),
            ctx_state is RefMut && !spec_is_tasks_listing(sql@) ==> spec_raw_capability_rel(
                old(actor).store,
                final(actor).store,
                sql@,
                r,
            ),
    {
        if let ContextState::Ref = ctx_state {
            if let Err(e) = check_read_only(sql.as_str()) {
                return Err(e);
            }
        }
        let raw_stmt_count: Option<usize> = match crate::sql::parse(sql.as_str()) {
            Ok(stmts) => Some(stmts.len()),
            Err(_) => None,
        };
        let stmt = classify_raw(sql);
        let is_raw = matches!(&stmt, CoreStatement::Raw(_));
        let msg = QueryMsg::new(stmt);
        match actor.request(msg) {
            Ok(p) => {
                if is_raw {
                    // The actor acknowledged the whole batch; present
                    // one acknowledgement per parsed statement, as the
                    // storage engine of the reference system does.
                    let n = match raw_stmt_count {
                        Some(n) => n,
                        None => {
                            proof {
                                assert(false);
                            }
                            0
                        },
                    };
                    let mut v: Vec<Payload> = Vec::new();
                    let mut i: usize = 0;
                    while i < n
                        invariant
                            i <= n,
                            v@.len() == i,
                            forall|k: int|
                                0 <= k < i ==> (#[trigger] v@[k] matches Payload::Select {
                                    labels,
                                    rows,
                                } && labels@.len() == 0 && rows@.len() == 0),
                        decreases n - i,
                    {
                        let labels: Vec<String> = Vec::new();
                        let rows: Vec<Vec<Value>> = Vec::new();
                        v.push(Payload::Select { labels, rows });
                        i = i + 1;
                    }
                    Ok(v)
                } else {
                    let mut v: Vec<Payload> = Vec::new();
                    v.push(p);
                    Ok(v)
                }
            },
            Err(e) => Err(e),
        }
    }
}

/// The per-invocation host context handed to sandboxed code. It owns
/// the storage actor handle, the debug log, the registered views, and
/// the name of the plugin on whose behalf it currently acts.
#[derive(Debug)]
pub struct Context {
    pub actor: StorageActor,
    /// The calling plugin's name; the runtime sets it before each hook.
    pub plugin: String,
    pub debug_log: Vec<String>,
    pub views: Vec<ViewType>,
}

impl Context {
    /// A context is usable when its actor can take a message.
    pub open spec fn wf(self) -> bool {
        self.actor.wf() && self.actor.idle()
    }

    /// A fresh context over a freshly bootstrapped store, with the
    /// actor's mailbox bounded at one hundred messages. There is no
    /// process-wide singleton: every holder owns its context value.
    pub fn acquire() -> (r: Context)
        ensures
            r.wf(),
            r.actor.store.spec_empty(),
            r.actor.store.applied.deep_view() == seq![spec_bootstrap_sql()],
            r.plugin@ =~= Seq::<char>::empty(),
            r.debug_log@.len() == 0,
            r.views@.len() == 0,
    {
        let store = Store::boot();
        Context {
            actor: StorageActor::start(store, 100),
            plugin: String::new(),
            debug_log: Vec::new(),
            views: Vec::new(),
        }
    }

    /// Act on behalf of this plugin from now on.
    pub fn set_plugin(&mut self, name: String)
        ensures
            final(self).plugin == name,
            final(self).actor == old(self).actor,
            final(self).debug_log == old(self).debug_log,
            final(self).views == old(self).views,
    {
        self.plugin = name;
    }

    /// Host-side log; always succeeds.
    pub fn debug(&mut self, output: &str)
        ensures
            final(self).debug_log.deep_view() == old(self).debug_log.deep_view().push(output@),
            final(self).actor == old(self).actor,
            final(self).plugin == old(self).plugin,
            final(self).views == old(self).views,
    {
        Debugger::debug(&mut self.debug_log, output.to_owned());
    }

    /// Fetch a resource; a passthrough stub in the reference system.
    pub fn fetch(&self, url: &str) -> (r: String)
        ensures
            r@ == url@,
    {
        Fetcher::fetch(url.to_owned())
    }

    /// Record that the calling plugin mounts a view of this kind.
    pub fn register_view(&mut self, view: ViewType)
        ensures
            final(self).views@ == old(self).views@.push(view),
            final(self).actor == old(self).actor,
            final(self).plugin == old(self).plugin,
            final(self).debug_log == old(self).debug_log,
    {
        self.views.push(view);
    }

    /// Declare interest in a class of events, on behalf of the current
    /// plugin; the subscription row is persisted through the actor.
    pub fn subscribe(&mut self, subscription: Subscription) -> (r: Result<Vec<Payload>, Error>)
        requires
            old(self).wf(),
        ensures
            final(self).wf(),
            final(self).actor.mailbox.capacity == old(self).actor.mailbox.capacity,
            final(self).plugin == old(self).plugin,
            spec_capability_rel(
                old(self).actor.store,
                final(self).actor.store,
                CoreStatement::InsertSubscription(
                    SubscriptionRow {
                        plugin: old(self).plugin,
                        event: subscription.event,
                        event_type: subscription.event_type,
                        data: subscription.data,
                    },
                ),
                r,
            ),
    {
        Emitter::subscribe(&mut self.actor, &self.plugin, subscription)
    }

    /// Read-only database access: see [`Database::query`].
    pub fn query(&mut self, sql: &str) -> (r: Result<Vec<Payload>, Error>)
        requires
            old(self).wf(),
        ensures
            final(self).wf(),
            final(self).actor.mailbox.capacity == old(self).actor.mailbox.capacity,
            final(self).plugin == old(self).plugin,
            !spec_read_only_ok(sql@) ==> final(self).actor.store == old(self).actor.store && (
            r matches Err(e) && e matches Error::DatabaseError(_)),
            spec_read_only_ok(sql@) && spec_is_tasks_listing(sql@) ==> spec_capability_rel(
                old(self).actor.store,
                final(self).actor.store,
                CoreStatement::SelectTasks,
                r,
            ),
            spec_read_only_ok(sql@) && !spec_is_tasks_listing(sql@) ==> spec_raw_capability_rel(
                old(self).actor.store,
                final(self).actor.store,
                sql@,
                r,
            ),
    {
        Database::query(&mut self.actor, sql.to_owned(), ContextState::Ref)
    }

    /// Send one typed core statement through the actor, as the
    /// capability layer does for the statements it builds itself.
    pub fn run_statement(&mut self, stmt: CoreStatement) -> (r: Result<Payload, Error>)
        requires
            old(self).wf(),
        ensures
            final(self).wf(),
            final(self).actor.mailbox.capacity == old(self).actor.mailbox.capacity,
            final(self).plugin == old(self).plugin,
            spec_apply_rel(old(self).actor.store, final(self).actor.store, stmt, r),
    {
        let msg = QueryMsg::new(stmt);
        self.actor.request(msg)
    }

    /// Mutating database access: the statement passes to the actor
    /// unexamined.
    pub fn execute(&mut self, sql: &str) -> (r: Result<Vec<Payload>, Error>)
        requires
            old(self).wf(),
        ensures
            final(self).wf(),
            final(self).actor.mailbox.capacity == old(self).actor.mailbox.capacity,
            final(self).plugin == old(self).plugin,
            spec_is_tasks_listing(sql@) ==> spec_capability_rel(
                old(self).actor.store,
                final(self).actor.store,
                CoreStatement::SelectTasks,
                r,
            ),
            !spec_is_tasks_listing(sql@) ==> spec_raw_capability_rel(
                old(self).actor.store,
                final(self).actor.store,
                sql@,
                r,
            ),
    {
        Database::query(&mut self.actor, sql.to_owned(), ContextState::RefMut)
    }
}

/// Whether a raw string is the tasks listing the store recognizes,
/// up to surrounding whitespace.
pub open spec fn spec_is_tasks_listing(s: Seq<char>) -> bool {
    spec_trimmed(s) == "Select * from tasks"@ || spec_trimmed(s) == "select * from tasks"@
}

/// The round trip of a statement batch outside the modeled schema: it
/// is logged verbatim — it does reach the actor — and leaves every
/// table unchanged. A string that parses is acknowledged with one
/// empty result per parsed statement; one that does not is a database
/// error, and the actor keeps serving.
pub open spec fn spec_raw_capability_rel(
    pre: Store,
    post: Store,
    sqltext: Seq<char>,
    r: Result<Vec<Payload>, Error>,
) -> bool {
    &&& post.applied.deep_view() == pre.applied.deep_view().push(sqltext)
    &&& crate::store::tables_unchanged(pre, post)
    &&& if crate::sql::sql_parses(sqltext) {
        r matches Ok(v) && v@.len() == crate::sql::parsed_sql(sqltext).len() && (forall|i: int|
            0 <= i < v@.len() ==> (#[trigger] v@[i] matches Payload::Select { labels, rows }
                && labels@.len() == 0 && rows@.len() == 0))
    } else {
        r matches Err(e) && e matches Error::DatabaseError(_)
    }
}

} // verus!
