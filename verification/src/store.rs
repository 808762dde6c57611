//! The typed model of the embedded relational store, restricted to the
//! core schema the runtime itself manages: `subscriptions`, `vaults`,
//! `entries`, and the `tasks` table owned by the tasks plugin.
//!
//! Every statement the runtime sends to storage is built from a
//! [`CoreStatement`]; the statement also carries its SQL text, which is
//! what a real storage engine would receive, and which the store logs
//! in order of application. A statement outside the modeled schema is
//! logged and acknowledged with an empty result.

use vstd::prelude::*;

use crate::decimal::{spec_dec_seq, u128_to_dec};
use crate::errors::Error;
use crate::payload::{Payload, Value};

verus! {

impl DeepView for Value {
    type V = Value;

    open spec fn deep_view(&self) -> Value {
        *self
    }
}

/// One row of the `subscriptions` table: a plugin's declared interest
/// in a class of document-structure events.
#[derive(Debug, PartialEq, Eq)]
pub struct SubscriptionRow {
    /// The subscribing plugin's name.
    pub plugin: String,
    /// The event namespace (the event type's full name).
    pub event: String,
    /// The event kind within the namespace.
    pub event_type: String,
    /// The serialized matcher payload.
    pub data: String,
}

/// One row of the `vaults` table; `name` is the primary key.
#[derive(Debug, PartialEq, Eq)]
pub struct VaultRow {
    pub name: String,
    pub mount: String,
}

/// One row of the `entries` table; `path` is the primary key.
#[derive(Debug, PartialEq, Eq)]
pub struct EntryRow {
    pub path: String,
    pub vault: String,
}

/// One row of the tasks plugin's `tasks` table.
#[derive(Debug, PartialEq, Eq)]
pub struct TaskRow {
    pub title: String,
    pub completed: bool,
    pub source: String,
}

/// A statement of the core schema, in typed form.
#[derive(Debug)]
pub enum CoreStatement {
    /// The boot-time schema reset: drop and recreate the core tables.
    Bootstrap,
    InsertSubscription(SubscriptionRow),
    /// List all subscriptions whose `event` column equals the string.
    SelectSubscriptionsByEvent(String),
    InsertVault(VaultRow),
    InsertEntry(EntryRow),
    CreateTasksTable,
    /// Delete every task whose `source` column equals the string.
    DeleteTasksBySource(String),
    InsertTask(TaskRow),
    SelectTasks,
    SelectVaults,
    SelectEntries { vault: String, offset: u32, limit: u32 },
    /// A statement outside the modeled schema, carried verbatim.
    Raw(String),
}

/// `"true"` or `"false"`.
pub open spec fn spec_bool_text(b: bool) -> Seq<char> {
    if b {
        "true"@
    } else {
        "false"@
    }
}

/// The SQL text of a core statement.
pub open spec fn spec_sql(c: CoreStatement) -> Seq<char> {
    match c {
        CoreStatement::Bootstrap => spec_bootstrap_sql(),
        CoreStatement::InsertSubscription(r) =>
            "INSERT INTO subscriptions(plugin, event, event_type, data) VALUES('"@ + r.plugin@
            + "','"@ + r.event@ + "','"@ + r.event_type@ + "','"@ + r.data@ + "');"@,
        CoreStatement::SelectSubscriptionsByEvent(ev) =>
            "SELECT * FROM subscriptions WHERE event = '"@ + ev@ + "';"@,
        CoreStatement::InsertVault(v) => "INSERT INTO vaults(name, mount) VALUES ('"@ + v.name@
            + "', '"@ + v.mount@ + "')"@,
        CoreStatement::InsertEntry(e) => "INSERT INTO entries(path, vault) VALUES('"@ + e.path@
            + "', '"@ + e.vault@ + "')"@,
        CoreStatement::CreateTasksTable =>
            "CREATE TABLE IF NOT EXISTS tasks (title TEXT NOT NULL, completed BOOLEAN NOT NULL, source TEXT, due DATE);"@,
        CoreStatement::DeleteTasksBySource(s) => "DELETE FROM tasks WHERE source = '"@ + s@
            + "';"@,
        CoreStatement::InsertTask(t) => "INSERT INTO tasks(title, completed, source) VALUES('"@
            + t.title@ + "', "@ + spec_bool_text(t.completed) + ", '"@ + t.source@ + "');"@,
        CoreStatement::SelectTasks => "Select * from tasks"@,
        CoreStatement::SelectVaults => "Select name, mount from vaults"@,
        CoreStatement::SelectEntries { vault, offset, limit } =>
            "Select path from entries WHERE vault = '"@ + vault@ + "' OFFSET "@ + spec_dec_seq(
            offset as nat,
        ) + " LIMIT "@ + spec_dec_seq(limit as nat) + ";"@,
        CoreStatement::Raw(s) => s@,
    }
}

/// The boot-time schema reset batch.
pub open spec fn spec_bootstrap_sql() -> Seq<char> {
    "DROP TABLE IF EXISTS subscriptions; DROP TABLE IF EXISTS vaults; DROP TABLE IF EXISTS entries; DROP TABLE IF EXISTS tasks; CREATE TABLE IF NOT EXISTS subscriptions (plugin TEXT NOT NULL, event TEXT NOT NULL, event_type TEXT NOT NULL, data TEXT); CREATE TABLE IF NOT EXISTS vaults (name TEXT NOT NULL PRIMARY KEY, mount TEXT NOT NULL); CREATE TABLE IF NOT EXISTS entries (path TEXT NOT NULL PRIMARY KEY, vault TEXT NOT NULL, last_modified INTEGER, meta TEXT)"@
}

impl CoreStatement {
    /// Build the SQL text of this statement.
    pub fn to_sql(&self) -> (r: String)
        ensures
            r@ == spec_sql(*self),
    {
        match self {
            CoreStatement::Bootstrap => {
                "DROP TABLE IF EXISTS subscriptions; DROP TABLE IF EXISTS vaults; DROP TABLE IF EXISTS entries; DROP TABLE IF EXISTS tasks; CREATE TABLE IF NOT EXISTS subscriptions (plugin TEXT NOT NULL, event TEXT NOT NULL, event_type TEXT NOT NULL, data TEXT); CREATE TABLE IF NOT EXISTS vaults (name TEXT NOT NULL PRIMARY KEY, mount TEXT NOT NULL); CREATE TABLE IF NOT EXISTS entries (path TEXT NOT NULL PRIMARY KEY, vault TEXT NOT NULL, last_modified INTEGER, meta TEXT)".to_owned()
            },
            CoreStatement::InsertSubscription(r) => {
                let mut s: String =
                    "INSERT INTO subscriptions(plugin, event, event_type, data) VALUES('".to_owned();
                s.append(r.plugin.as_str());
                s.append("','");
                s.append(r.event.as_str());
                s.append("','");
                s.append(r.event_type.as_str());
                s.append("','");
                s.append(r.data.as_str());
                s.append("');");
                s
            },
            CoreStatement::SelectSubscriptionsByEvent(ev) => {
                let mut s: String = "SELECT * FROM subscriptions WHERE event = '".to_owned();
                s.append(ev.as_str());
                s.append("';");
                s
            },
            CoreStatement::InsertVault(v) => {
                let mut s: String = "INSERT INTO vaults(name, mount) VALUES ('".to_owned();
                s.append(v.name.as_str());
                s.append("', '");
                s.append(v.mount.as_str());
                s.append("')");
                s
            },
            CoreStatement::InsertEntry(e) => {
                let mut s: String = "INSERT INTO entries(path, vault) VALUES('".to_owned();
                s.append(e.path.as_str());
                s.append("', '");
                s.append(e.vault.as_str());
                s.append("')");
                s
            },
            CoreStatement::CreateTasksTable => {
                "CREATE TABLE IF NOT EXISTS tasks (title TEXT NOT NULL, completed BOOLEAN NOT NULL, source TEXT, due DATE);".to_owned()
            },
            CoreStatement::DeleteTasksBySource(src) => {
                let mut s: String = "DELETE FROM tasks WHERE source = '".to_owned();
                s.append(src.as_str());
                s.append("';");
                s
            },
            CoreStatement::InsertTask(t) => {
                let mut s: String = "INSERT INTO tasks(title, completed, source) VALUES('".to_owned();
                s.append(t.title.as_str());
                s.append("', ");
                if t.completed {
                    s.append("true");
                } else {
                    s.append("false");
                }
                s.append(", '");
                s.append(t.source.as_str());
                s.append("');");
                s
            },
            CoreStatement::SelectTasks => "Select * from tasks".to_owned(),
            CoreStatement::SelectVaults => "Select name, mount from vaults".to_owned(),
            CoreStatement::SelectEntries { vault, offset, limit } => {
                let mut s: String = "Select path from entries WHERE vault = '".to_owned();
                s.append(vault.as_str());
                s.append("' OFFSET ");
                let off = u128_to_dec(*offset as u128);
                s.append(off.as_str());
                s.append(" LIMIT ");
                let lim = u128_to_dec(*limit as u128);
                s.append(lim.as_str());
                s.append(";");
                s
            },
            CoreStatement::Raw(sql) => sql.clone(),
        }
    }
}

/// The columns of one subscription row, as result cells.
pub open spec fn spec_sub_cells(r: SubscriptionRow) -> Seq<Value> {
    seq![
        Value::Str(r.plugin),
        Value::Str(r.event),
        Value::Str(r.event_type),
        Value::Str(r.data),
    ]
}

/// The result rows of a subscriptions listing: every row whose `event`
/// equals `ev`, in insertion order.
pub open spec fn spec_subs_rows(subs: Seq<SubscriptionRow>, ev: Seq<char>) -> Seq<Seq<Value>>
    decreases subs.len(),
{
    if subs.len() == 0 {
        Seq::empty()
    } else if subs.last().event@ == ev {
        spec_subs_rows(subs.drop_last(), ev) + seq![spec_sub_cells(subs.last())]
    } else {
        spec_subs_rows(subs.drop_last(), ev)
    }
}

/// The columns of one task row, as result cells.
pub open spec fn spec_task_cells(t: TaskRow) -> Seq<Value> {
    seq![Value::Str(t.title), Value::Bool(t.completed), Value::Str(t.source)]
}

/// The result rows of a tasks listing, in insertion order.
pub open spec fn spec_task_rows(tasks: Seq<TaskRow>) -> Seq<Seq<Value>>
    decreases tasks.len(),
{
    if tasks.len() == 0 {
        Seq::empty()
    } else {
        spec_task_rows(tasks.drop_last()) + seq![spec_task_cells(tasks.last())]
    }
}

/// The tasks that survive deleting every row with this `source`.
pub open spec fn spec_tasks_without_source(tasks: Seq<TaskRow>, src: Seq<char>) -> Seq<TaskRow>
    decreases tasks.len(),
{
    if tasks.len() == 0 {
        Seq::empty()
    } else if tasks.last().source@ == src {
        spec_tasks_without_source(tasks.drop_last(), src)
    } else {
        spec_tasks_without_source(tasks.drop_last(), src) + seq![tasks.last()]
    }
}

/// The result rows of a vaults listing.
pub open spec fn spec_vault_rows(vaults: Seq<VaultRow>) -> Seq<Seq<Value>>
    decreases vaults.len(),
{
    if vaults.len() == 0 {
        Seq::empty()
    } else {
        spec_vault_rows(vaults.drop_last()) + seq![
            seq![Value::Str(vaults.last().name), Value::Str(vaults.last().mount)],
        ]
    }
}

/// The paths of every entry of this vault, in insertion order.
pub open spec fn spec_entry_paths(entries: Seq<EntryRow>, vault: Seq<char>) -> Seq<String>
    decreases entries.len(),
{
    if entries.len() == 0 {
        Seq::empty()
    } else if entries.last().vault@ == vault {
        spec_entry_paths(entries.drop_last(), vault) + seq![entries.last().path]
    } else {
        spec_entry_paths(entries.drop_last(), vault)
    }
}

/// How far into the filtered rows a page with this offset and limit
/// reaches.
pub open spec fn spec_page_end(len: nat, offset: nat, limit: nat) -> nat {
    if offset > len {
        len
    } else if offset + limit > len {
        len
    } else {
        offset + limit
    }
}

/// The single-column result rows for a sequence of paths.
pub open spec fn spec_path_rows(paths: Seq<String>) -> Seq<Seq<Value>>
    decreases paths.len(),
{
    if paths.len() == 0 {
        Seq::empty()
    } else {
        spec_path_rows(paths.drop_last()) + seq![seq![Value::Str(paths.last())]]
    }
}

/// The single-column result rows for the paths from `offset` (clamped)
/// up to `upto`.
pub open spec fn spec_path_page_upto(paths: Seq<String>, offset: nat, upto: nat) -> Seq<
    Seq<Value>,
> {
    if offset > paths.len() || upto > paths.len() || upto < offset {
        Seq::empty()
    } else {
        spec_path_rows(paths.subrange(offset as int, upto as int))
    }
}

/// The single-column result rows of `OFFSET offset LIMIT limit` over
/// the filtered paths.
pub open spec fn spec_path_page(paths: Seq<String>, offset: nat, limit: nat) -> Seq<Seq<Value>> {
    spec_path_page_upto(paths, offset, spec_page_end(paths.len(), offset, limit))
}

/// Whether some vault row already uses this name (the primary key).
pub open spec fn spec_vault_name_taken(vaults: Seq<VaultRow>, name: Seq<char>) -> bool {
    exists|i: int| 0 <= i < vaults.len() && (#[trigger] vaults[i]).name@ == name
}

/// Whether some entry row already uses this path (the primary key).
pub open spec fn spec_entry_path_taken(entries: Seq<EntryRow>, path: Seq<char>) -> bool {
    exists|i: int| 0 <= i < entries.len() && (#[trigger] entries[i]).path@ == path
}

/// Everything `Store::apply` guarantees, as one relation between the
/// store before, the store after, the statement, and the reply.
pub open spec fn spec_apply_rel(
    pre: Store,
    post: Store,
    stmt: CoreStatement,
    r: Result<Payload, Error>,
) -> bool {
        &&& (post.applied.deep_view() == pre.applied.deep_view().push(spec_sql(stmt)))
        &&& (stmt is Bootstrap ==> post.spec_empty() && (r matches Ok(p)
                && p == Payload::Create))
        &&& (stmt matches CoreStatement::InsertSubscription(row) ==> ({
                &&& post.subscriptions@ == pre.subscriptions@.push(row)
                &&& same_but_subscriptions(pre, post)
                &&& (r matches Ok(p) && p == Payload::Insert(1usize))
            }))
        &&& (stmt matches CoreStatement::SelectSubscriptionsByEvent(ev) ==> ({
                &&& tables_unchanged(pre, post)
                &&& (r matches Ok(p) && p matches Payload::Select { labels, rows }
                    && labels.deep_view() == seq!["plugin"@, "event"@, "event_type"@, "data"@]
                    && rows.deep_view() == spec_subs_rows(pre.subscriptions@, ev@))
            }))
        &&& (stmt matches CoreStatement::InsertVault(v) ==> ({
                &&& post.subscriptions@ == pre.subscriptions@
                &&& post.entries@ == pre.entries@
                &&& post.tasks@ == pre.tasks@
                &&& post.tasks_created == pre.tasks_created
                &&& if spec_vault_name_taken(pre.vaults@, v.name@) {
                    post.vaults@ == pre.vaults@ && (r matches Err(e)
                        && e matches Error::DatabaseError(_))
                } else {
                    post.vaults@ == pre.vaults@.push(v) && (r matches Ok(p)
                        && p == Payload::Insert(1usize))
                }
            }))
        &&& (stmt matches CoreStatement::InsertEntry(en) ==> ({
                &&& post.subscriptions@ == pre.subscriptions@
                &&& post.vaults@ == pre.vaults@
                &&& post.tasks@ == pre.tasks@
                &&& post.tasks_created == pre.tasks_created
                &&& if spec_entry_path_taken(pre.entries@, en.path@) {
                    post.entries@ == pre.entries@ && (r matches Err(e)
                        && e matches Error::DatabaseError(_))
                } else {
                    post.entries@ == pre.entries@.push(en) && (r matches Ok(p)
                        && p == Payload::Insert(1usize))
                }
            }))
        &&& (stmt is CreateTasksTable ==> ({
                &&& post.tasks_created
                &&& post.subscriptions@ == pre.subscriptions@
                &&& post.vaults@ == pre.vaults@
                &&& post.entries@ == pre.entries@
                &&& post.tasks@ == pre.tasks@
                &&& (r matches Ok(p) && p == Payload::Create)
            }))
        &&& (stmt matches CoreStatement::DeleteTasksBySource(src) ==> ({
                &&& post.subscriptions@ == pre.subscriptions@
                &&& post.vaults@ == pre.vaults@
                &&& post.entries@ == pre.entries@
                &&& post.tasks_created == pre.tasks_created
                &&& if pre.tasks_created {
                    post.tasks@ == spec_tasks_without_source(pre.tasks@, src@) && (
                    r matches Ok(p) && p == Payload::Delete(
                        (pre.tasks@.len() - spec_tasks_without_source(
                            pre.tasks@,
                            src@,
                        ).len()) as usize,
                    ))
                } else {
                    post.tasks@ == pre.tasks@ && (r matches Err(e)
                        && e matches Error::DatabaseError(_))
                }
            }))
        &&& (stmt matches CoreStatement::InsertTask(t) ==> ({
                &&& post.subscriptions@ == pre.subscriptions@
                &&& post.vaults@ == pre.vaults@
                &&& post.entries@ == pre.entries@
                &&& post.tasks_created == pre.tasks_created
                &&& if pre.tasks_created {
                    post.tasks@ == pre.tasks@.push(t) && (r matches Ok(p)
                        && p == Payload::Insert(1usize))
                } else {
                    post.tasks@ == pre.tasks@ && (r matches Err(e)
                        && e matches Error::DatabaseError(_))
                }
            }))
        &&& (stmt is SelectTasks ==> ({
                &&& tables_unchanged(pre, post)
                &&& if pre.tasks_created {
                    r matches Ok(p) && p matches Payload::Select { labels, rows }
                        && labels.deep_view() == seq!["title"@, "completed"@, "source"@]
                        && rows.deep_view() == spec_task_rows(pre.tasks@)
                } else {
                    r matches Err(e) && e matches Error::DatabaseError(_)
                }
            }))
        &&& (stmt is SelectVaults ==> ({
                &&& tables_unchanged(pre, post)
                &&& (r matches Ok(p) && p matches Payload::Select { labels, rows }
                    && labels.deep_view() == seq!["name"@, "mount"@] && rows.deep_view()
                    == spec_vault_rows(pre.vaults@))
            }))
        &&& (stmt matches CoreStatement::SelectEntries { vault, offset, limit } ==> ({
                &&& tables_unchanged(pre, post)
                &&& (r matches Ok(p) && p matches Payload::Select { labels, rows }
                    && labels.deep_view() == seq!["path"@] && rows.deep_view() == spec_path_page(
                    spec_entry_paths(pre.entries@, vault@),
                    offset as nat,
                    limit as nat,
                ))
            }))
        &&& (stmt matches CoreStatement::Raw(sq) ==> ({
                &&& tables_unchanged(pre, post)
                &&& if crate::sql::sql_parses(sq@) {
                    r matches Ok(p) && (p matches Payload::Select { labels, rows }
                        && labels@.len() == 0 && rows@.len() == 0)
                } else {
                    r matches Err(e) && e matches Error::DatabaseError(_)
                }
            }))
}

/// The owned state behind the storage actor.
#[derive(Debug)]
pub struct Store {
    pub subscriptions: Vec<SubscriptionRow>,
    pub vaults: Vec<VaultRow>,
    pub entries: Vec<EntryRow>,
    /// Whether the tasks plugin has created its table.
    pub tasks_created: bool,
    pub tasks: Vec<TaskRow>,
    /// Every statement applied so far, as SQL text, oldest first.
    pub applied: Vec<String>,
}

/// The store's tables other than `subscriptions` are unchanged.
pub open spec fn same_but_subscriptions(pre: Store, post: Store) -> bool {
    post.vaults@ == pre.vaults@ && post.entries@ == pre.entries@ && post.tasks@ == pre.tasks@
        && post.tasks_created == pre.tasks_created
}

/// No table changed.
pub open spec fn tables_unchanged(pre: Store, post: Store) -> bool {
    same_but_subscriptions(pre, post) && post.subscriptions@ == pre.subscriptions@
}

impl Store {
    /// Every table empty, the tasks table not yet created.
    pub open spec fn spec_empty(self) -> bool {
        self.subscriptions@.len() == 0 && self.vaults@.len() == 0 && self.entries@.len() == 0
            && !self.tasks_created && self.tasks@.len() == 0
    }

    /// A fresh, bootstrapped store. The boot-time schema reset is the
    /// first applied statement: subscriptions are derived state,
    /// rebuilt at every boot.
    pub fn boot() -> (r: Store)
        ensures
            r.spec_empty(),
            r.applied.deep_view() == seq![spec_bootstrap_sql()],
    {
        let stmt = CoreStatement::Bootstrap;
        let sql = stmt.to_sql();
        let mut applied: Vec<String> = Vec::new();
        applied.push(sql);
        proof {
            assert(applied.deep_view() =~= seq![spec_bootstrap_sql()]);
        }
        Store {
            subscriptions: Vec::new(),
            vaults: Vec::new(),
            entries: Vec::new(),
            tasks_created: false,
            tasks: Vec::new(),
            applied,
        }
    }

    /// Apply one statement: log its SQL text, update the tables, and
    /// produce the reply the sender will receive; see [`spec_apply_rel`].
    pub fn apply(&mut self, stmt: CoreStatement) -> (r: Result<Payload, Error>)
        ensures
            spec_apply_rel(*old(self), *final(self), stmt, r),
    {
        let sql = stmt.to_sql();
        self.applied.push(sql);
        proof {
            assert(self.applied.deep_view() =~= old(self).applied.deep_view().push(spec_sql(stmt)));
        }
        match stmt {
            CoreStatement::Bootstrap => {
                self.subscriptions = Vec::new();
                self.vaults = Vec::new();
                self.entries = Vec::new();
                self.tasks_created = false;
                self.tasks = Vec::new();
                Ok(Payload::Create)
            },
            CoreStatement::InsertSubscription(row) => {
                self.subscriptions.push(row);
                Ok(Payload::Insert(1))
            },
            CoreStatement::SelectSubscriptionsByEvent(ev) => {
                let rows = self.subscription_rows(&ev);
                let mut labels: Vec<String> = Vec::new();
                labels.push("plugin".to_owned());
                labels.push("event".to_owned());
                labels.push("event_type".to_owned());
                labels.push("data".to_owned());
                proof {
                    assert(labels.deep_view() =~= seq!["plugin"@, "event"@, "event_type"@, "data"@]);
                }
                Ok(Payload::Select { labels, rows })
            },
            CoreStatement::InsertVault(v) => {
                if self.vault_name_taken(&v.name) {
                    Err(Error::DatabaseError("duplicate vault name".to_owned()))
                } else {
                    self.vaults.push(v);
                    Ok(Payload::Insert(1))
                }
            },
            CoreStatement::InsertEntry(en) => {
                if self.entry_path_taken(&en.path) {
                    Err(Error::DatabaseError("duplicate entry path".to_owned()))
                } else {
                    self.entries.push(en);
                    Ok(Payload::Insert(1))
                }
            },
            CoreStatement::CreateTasksTable => {
                self.tasks_created = true;
                Ok(Payload::Create)
            },
            CoreStatement::DeleteTasksBySource(src) => {
                if !self.tasks_created {
                    return Err(Error::DatabaseError("no such table: tasks".to_owned()));
                }
                let deleted = self.delete_tasks_by_source(&src);
                Ok(Payload::Delete(deleted))
            },
            CoreStatement::InsertTask(t) => {
                if !self.tasks_created {
                    return Err(Error::DatabaseError("no such table: tasks".to_owned()));
                }
                self.tasks.push(t);
                Ok(Payload::Insert(1))
            },
            CoreStatement::SelectTasks => {
                if !self.tasks_created {
                    return Err(Error::DatabaseError("no such table: tasks".to_owned()));
                }
                let rows = self.task_rows();
                let mut labels: Vec<String> = Vec::new();
                labels.push("title".to_owned());
                labels.push("completed".to_owned());
                labels.push("source".to_owned());
                proof {
                    assert(labels.deep_view() =~= seq!["title"@, "completed"@, "source"@]);
                }
                Ok(Payload::Select { labels, rows })
            },
            CoreStatement::SelectVaults => {
                let rows = self.vault_rows();
                let mut labels: Vec<String> = Vec::new();
                labels.push("name".to_owned());
                labels.push("mount".to_owned());
                proof {
                    assert(labels.deep_view() =~= seq!["name"@, "mount"@]);
                }
                Ok(Payload::Select { labels, rows })
            },
            CoreStatement::SelectEntries { vault, offset, limit } => {
                let rows = self.entry_rows(&vault, offset, limit);
                let mut labels: Vec<String> = Vec::new();
                labels.push("path".to_owned());
                proof {
                    assert(labels.deep_view() =~= seq!["path"@]);
                }
                Ok(Payload::Select { labels, rows })
            },
            CoreStatement::Raw(sql_text) => {
                // Even outside the modeled schema the actor tolerates
                // malformed SQL: it answers an error and keeps serving.
                if let Err(_) = crate::sql::parse(sql_text.as_str()) {
                    return Err(
                        Error::DatabaseError("could not parse the statement".to_owned()),
                    );
                }
                let labels: Vec<String> = Vec::new();
                let rows: Vec<Vec<Value>> = Vec::new();
                Ok(Payload::Select { labels, rows })
            },
        }
    }

    fn subscription_rows(&self, ev: &String) -> (rows: Vec<Vec<Value>>)
        ensures
            rows.deep_view() == spec_subs_rows(self.subscriptions@, ev@),
    {
        let mut rows: Vec<Vec<Value>> = Vec::new();
        let mut i: usize = 0;
        while i < self.subscriptions.len()
            invariant
                i <= self.subscriptions@.len(),
                rows.deep_view() == spec_subs_rows(self.subscriptions@.take(i as int), ev@),
            decreases self.subscriptions@.len() - i,
        {
            let sub = &self.subscriptions[i];
            if sub.event.eq(ev) {
                let mut cells: Vec<Value> = Vec::new();
                cells.push(Value::Str(sub.plugin.clone()));
                cells.push(Value::Str(sub.event.clone()));
                cells.push(Value::Str(sub.event_type.clone()));
                cells.push(Value::Str(sub.data.clone()));
                proof {
                    assert(cells@ =~= spec_sub_cells(self.subscriptions@[i as int]));
                }
                rows.push(cells);
            }
            proof {
                let pre = self.subscriptions@.take(i as int);
                let now = self.subscriptions@.take(i + 1 as int);
                assert(now.drop_last() =~= pre);
                assert(now.last() == self.subscriptions@[i as int]);
                assert(rows.deep_view() =~~= spec_subs_rows(now, ev@));
            }
            i = i + 1;
        }
        proof {
            assert(self.subscriptions@.take(self.subscriptions@.len() as int)
                =~= self.subscriptions@);
        }
        rows
    }

    fn task_rows(&self) -> (rows: Vec<Vec<Value>>)
        ensures
            rows.deep_view() == spec_task_rows(self.tasks@),
    {
        let mut rows: Vec<Vec<Value>> = Vec::new();
        let mut i: usize = 0;
        while i < self.tasks.len()
            invariant
                i <= self.tasks@.len(),
                rows.deep_view() == spec_task_rows(self.tasks@.take(i as int)),
            decreases self.tasks@.len() - i,
        {
            let t = &self.tasks[i];
            let mut cells: Vec<Value> = Vec::new();
            cells.push(Value::Str(t.title.clone()));
            cells.push(Value::Bool(t.completed));
            cells.push(Value::Str(t.source.clone()));
            proof {
                assert(cells@ =~= spec_task_cells(self.tasks@[i as int]));
            }
            rows.push(cells);
            proof {
                let pre = self.tasks@.take(i as int);
                let now = self.tasks@.take(i + 1 as int);
                assert(now.drop_last() =~= pre);
                assert(now.last() == self.tasks@[i as int]);
                assert(rows.deep_view() =~~= spec_task_rows(now));
            }
            i = i + 1;
        }
        proof {
            assert(self.tasks@.take(self.tasks@.len() as int) =~= self.tasks@);
        }
        rows
    }

    fn vault_rows(&self) -> (rows: Vec<Vec<Value>>)
        ensures
            rows.deep_view() == spec_vault_rows(self.vaults@),
    {
        let mut rows: Vec<Vec<Value>> = Vec::new();
        let mut i: usize = 0;
        while i < self.vaults.len()
            invariant
                i <= self.vaults@.len(),
                rows.deep_view() == spec_vault_rows(self.vaults@.take(i as int)),
            decreases self.vaults@.len() - i,
        {
            let v = &self.vaults[i];
            let mut cells: Vec<Value> = Vec::new();
            cells.push(Value::Str(v.name.clone()));
            cells.push(Value::Str(v.mount.clone()));
            proof {
                assert(cells@ =~= seq![
                    Value::Str(self.vaults@[i as int].name),
                    Value::Str(self.vaults@[i as int].mount),
                ]);
            }
            rows.push(cells);
            proof {
                let pre = self.vaults@.take(i as int);
                let now = self.vaults@.take(i + 1 as int);
                assert(now.drop_last() =~= pre);
                assert(now.last() == self.vaults@[i as int]);
                assert(rows.deep_view() =~~= spec_vault_rows(now));
            }
            i = i + 1;
        }
        proof {
            assert(self.vaults@.take(self.vaults@.len() as int) =~= self.vaults@);
        }
        rows
    }

    fn entry_rows(&self, vault: &String, offset: u32, limit: u32) -> (rows: Vec<Vec<Value>>)
        ensures
            rows.deep_view() == spec_path_page(
                spec_entry_paths(self.entries@, vault@),
                offset as nat,
                limit as nat,
            ),
    {
        let mut paths: Vec<String> = Vec::new();
        let mut i: usize = 0;
        while i < self.entries.len()
            invariant
                i <= self.entries@.len(),
                paths@ == spec_entry_paths(self.entries@.take(i as int), vault@),
            decreases self.entries@.len() - i,
        {
            let e = &self.entries[i];
            if e.vault.eq(vault) {
                paths.push(e.path.clone());
            }
            proof {
                let pre = self.entries@.take(i as int);
                let now = self.entries@.take(i + 1 as int);
                assert(now.drop_last() =~= pre);
                assert(now.last() == self.entries@[i as int]);
                assert(paths@ =~= spec_entry_paths(now, vault@));
            }
            i = i + 1;
        }
        proof {
            assert(self.entries@.take(self.entries@.len() as int) =~= self.entries@);
        }
        let start: usize = if (offset as usize) <= paths.len() {
            offset as usize
        } else {
            paths.len()
        };
        let end: usize = if (limit as usize) <= paths.len() - start {
            start + (limit as usize)
        } else {
            paths.len()
        };
        proof {
            assert(end == spec_page_end(paths@.len() as nat, offset as nat, limit as nat));
        }
        let mut rows: Vec<Vec<Value>> = Vec::new();
        let mut j: usize = start;
        while j < end
            invariant
                start <= j <= end,
                end <= paths@.len(),
                start == if (offset as nat) <= paths@.len() {
                    offset as nat
                } else {
                    paths@.len()
                },
                end == spec_page_end(paths@.len() as nat, offset as nat, limit as nat),
                paths@ == spec_entry_paths(self.entries@, vault@),
                rows.deep_view() == spec_path_page_upto(paths@, offset as nat, j as nat),
            decreases end - j,
        {
            let mut cells: Vec<Value> = Vec::new();
            cells.push(Value::Str(paths[j].clone()));
            rows.push(cells);
            proof {
                let pj = paths@.subrange(offset as int, j as int);
                let pj1 = paths@.subrange(offset as int, (j + 1) as int);
                assert(pj1.drop_last() =~= pj);
                assert(pj1.last() == paths@[j as int]);
                assert(cells@ =~= seq![Value::Str(paths@[j as int])]);
                assert(rows.deep_view() =~~= spec_path_page_upto(
                    paths@,
                    offset as nat,
                    (j + 1) as nat,
                ));
            }
            j = j + 1;
        }
        proof {
            if start == end {
                assert(rows.deep_view() =~= spec_path_page(
                    paths@,
                    offset as nat,
                    limit as nat,
                ));
            }
        }
        rows
    }

    fn vault_name_taken(&self, name: &String) -> (r: bool)
        ensures
            r == spec_vault_name_taken(self.vaults@, name@),
    {
        let mut i: usize = 0;
        while i < self.vaults.len()
            invariant
                i <= self.vaults@.len(),
                forall|j: int| 0 <= j < i ==> (#[trigger] self.vaults@[j]).name@ != name@,
            decreases self.vaults@.len() - i,
        {
            if self.vaults[i].name.eq(name) {
                return true;
            }
            i = i + 1;
        }
        false
    }

    fn entry_path_taken(&self, path: &String) -> (r: bool)
        ensures
            r == spec_entry_path_taken(self.entries@, path@),
    {
        let mut i: usize = 0;
        while i < self.entries.len()
            invariant
                i <= self.entries@.len(),
                forall|j: int| 0 <= j < i ==> (#[trigger] self.entries@[j]).path@ != path@,
            decreases self.entries@.len() - i,
        {
            if self.entries[i].path.eq(path) {
                return true;
            }
            i = i + 1;
        }
        false
    }

    fn delete_tasks_by_source(&mut self, src: &String) -> (deleted: usize)
        ensures
            final(self).tasks@ == spec_tasks_without_source(old(self).tasks@, src@),
            deleted == old(self).tasks@.len() - final(self).tasks@.len(),
            final(self).subscriptions@ == old(self).subscriptions@,
            final(self).vaults@ == old(self).vaults@,
            final(self).entries@ == old(self).entries@,
            final(self).tasks_created == old(self).tasks_created,
            final(self).applied@ == old(self).applied@,
    {
        let mut kept: Vec<TaskRow> = Vec::new();
        let n = self.tasks.len();
        let mut i: usize = 0;
        while i < self.tasks.len()
            invariant
                i <= self.tasks@.len(),
                self.tasks@ == old(self).tasks@,
                kept@ == spec_tasks_without_source(self.tasks@.take(i as int), src@),
                self.subscriptions@ == old(self).subscriptions@,
                self.vaults@ == old(self).vaults@,
                self.entries@ == old(self).entries@,
                self.tasks_created == old(self).tasks_created,
                self.applied@ == old(self).applied@,
                n == self.tasks@.len(),
            decreases self.tasks@.len() - i,
        {
            let t = &self.tasks[i];
            if !t.source.eq(src) {
                let copy = TaskRow {
                    title: t.title.clone(),
                    completed: t.completed,
                    source: t.source.clone(),
                };
                proof {
                    assert(copy == self.tasks@[i as int]);
                }
                kept.push(copy);
            }
            proof {
                let pre = self.tasks@.take(i as int);
                let now = self.tasks@.take(i + 1 as int);
                assert(now.drop_last() =~= pre);
                assert(now.last() == self.tasks@[i as int]);
                assert(kept@ =~= spec_tasks_without_source(now, src@));
            }
            i = i + 1;
        }
        proof {
            assert(self.tasks@.take(self.tasks@.len() as int) =~= self.tasks@);
            lemma_tasks_without_source_len(self.tasks@, src@);
        }
        let deleted = n - kept.len();
        self.tasks = kept;
        deleted
    }
}

/// Removing rows never lengthens a table.
proof fn lemma_tasks_without_source_len(tasks: Seq<TaskRow>, src: Seq<char>)
    ensures
        spec_tasks_without_source(tasks, src).len() <= tasks.len(),
    decreases tasks.len(),
{
    if tasks.len() > 0 {
        lemma_tasks_without_source_len(tasks.drop_last(), src);
    }
}

} // verus!
