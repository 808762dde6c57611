//! The guest-visible plugin contract, and the two built-in plugins:
//! the tasks tracker and the data view.

use vstd::prelude::*;

use crate::codec::{encode_matcher, spec_contains, spec_matcher_data, str_contains};
use crate::common::{Event, Rsx};
use crate::context::{spec_is_tasks_listing, Context, Subscription};
use crate::decimal::{spec_dec_seq, usize_to_dec};
use crate::errors::Error;
use crate::markdown::{File, FileType};
use crate::matcher::MarkdownEvent;
use crate::events::{DocCodeBlockKind, DocEvent, DocTag};
use crate::payload::{spec_rows_text, payload_text, Payload, Value};
use crate::sql::spec_read_only_ok;
use crate::store::{
    spec_task_cells, spec_task_rows, spec_tasks_without_source, CoreStatement, Store,
    SubscriptionRow, TaskRow,
};

verus! {

/// The lifecycle hooks and handlers every plugin exposes. `on_load` is
/// the only hook without a default: the rest default to doing nothing,
/// passing the file through, and refusing to render.
pub trait Plugin {
    fn on_load(&self, ctx: &mut Context) -> (r: Result<(), Error>)
        requires
            old(ctx).wf(),
        ensures
            final(ctx).wf(),
    ;

    fn process_file(&self, ctx: &mut Context, file: File) -> (r: Result<File, Error>)
        requires
            old(ctx).wf(),
        ensures
            final(ctx).wf(),
    {
        Ok(file)
    }

    fn on_event(&self, ctx: &mut Context, ev: Event) -> (r: Result<(), Error>)
        requires
            old(ctx).wf(),
        ensures
            final(ctx).wf(),
    {
        Ok(())
    }

    fn on_unload(&self, ctx: &mut Context) -> (r: Result<(), Error>)
        requires
            old(ctx).wf(),
        ensures
            final(ctx).wf(),
    {
        Ok(())
    }

    fn render(&self, ctx: &mut Context, view: Event) -> (r: Result<Rsx, Error>)
        requires
            old(ctx).wf(),
        ensures
            final(ctx).wf(),
    {
        Err(Error::InvalidRender)
    }
}

/// A plugin that does nothing; useful for declaring events shared by
/// several plugins. It must not be invoked.
#[derive(Debug, Clone, PartialEq, Eq, Structural)]
pub struct IdentityPlugin;

impl Plugin for IdentityPlugin {
    fn on_load(&self, _ctx: &mut Context) -> Result<(), Error> {
        Err(Error::PluginError("the identity plugin must not be invoked".to_owned()))
    }
}

/// The core pseudo-plugin behind runtime-owned events. Never invoked.
#[derive(Debug, Clone, PartialEq, Eq, Structural)]
pub struct Core;

impl Plugin for Core {
    fn on_load(&self, _ctx: &mut Context) -> Result<(), Error> {
        Err(Error::PluginError("the core pseudo-plugin must not be invoked".to_owned()))
    }
}

/// The events the tasks plugin emits and subscribes to.
#[derive(Debug, Clone, Copy, PartialEq, Eq, Structural)]
pub enum TaskEvent {
    Add,
    Completed,
    Delete,
}

impl TaskEvent {
    /// This event's subscription row payload.
    pub fn to_subscription(&self) -> (r: Subscription)
        ensures
            r.event@ == "tasks::TaskEvent"@,
            r.event_type@ == "tasks::Tasks"@,
            self is Add ==> r.data@ == "TaskEvent::Add"@,
            self is Completed ==> r.data@ == "TaskEvent::Completed"@,
            self is Delete ==> r.data@ == "TaskEvent::Delete"@,
    {
        let data: String = match self {
            TaskEvent::Add => "TaskEvent::Add".to_owned(),
            TaskEvent::Completed => "TaskEvent::Completed".to_owned(),
            TaskEvent::Delete => "TaskEvent::Delete".to_owned(),
        };
        Subscription {
            event: "tasks::TaskEvent".to_owned(),
            event_type: "tasks::Tasks".to_owned(),
            data,
        }
    }
}

/// The namespace under which document-structure matchers are filed.
pub open spec fn spec_markdown_namespace() -> Seq<char> {
    "markdown::MarkdownEvent"@
}

impl MarkdownEvent {
    /// This matcher's subscription row payload: the document-event
    /// namespace, the identity plugin as the owning event type, and
    /// the serialized matcher.
    pub fn to_subscription(&self) -> (r: Subscription)
        ensures
            r.event@ == spec_markdown_namespace(),
            r.event_type@ == "types::IdentityPlugin"@,
            r.data@ == spec_matcher_data(*self),
    {
        Subscription {
            event: "markdown::MarkdownEvent".to_owned(),
            event_type: "types::IdentityPlugin".to_owned(),
            data: encode_matcher(self),
        }
    }
}

/// A task parsed out of a document or stored in the tasks table.
#[derive(Debug, Clone, PartialEq, Eq)]
pub struct Task {
    pub title: String,
    pub completed: bool,
    pub source: Option<String>,
}

impl Task {
    /// A fresh, uncompleted task with no source.
    pub fn new(text: String) -> (r: Task)
        ensures
            r.title == text,
            !r.completed,
            r.source is None,
    {
        Task { title: text, completed: false, source: None }
    }
}

/// The first column position carrying this label.
pub open spec fn spec_label_index(labels: Seq<String>, name: Seq<char>) -> Option<int>
    decreases labels.len(),
{
    if labels.len() == 0 {
        None
    } else if labels.first()@ == name {
        Some(0int)
    } else {
        match spec_label_index(labels.drop_first(), name) {
            Some(i) => Some(i + 1),
            None => None,
        }
    }
}

/// The task one result row denotes, if its labeled cells have the
/// expected shapes.
pub open spec fn spec_task_from_row(labels: Seq<String>, cells: Seq<Value>) -> Option<Task> {
    match (
        spec_label_index(labels, "title"@),
        spec_label_index(labels, "completed"@),
        spec_label_index(labels, "source"@),
    ) {
        (Some(ti), Some(ci), Some(si)) => {
            if ti < cells.len() && ci < cells.len() && si < cells.len() {
                match (cells[ti], cells[ci], cells[si]) {
                    (Value::Str(title), Value::Bool(completed), Value::Str(source)) => Some(
                        Task { title, completed, source: Some(source) },
                    ),
                    _ => None,
                }
            } else {
                None
            }
        },
        _ => None,
    }
}

/// The first column position carrying this label.
fn label_index(labels: &Vec<String>, name: &str) -> (r: Option<usize>)
    ensures
        match r {
            Some(i) => spec_label_index(labels@, name@) == Some(i as int) && i < labels@.len(),
            None => spec_label_index(labels@, name@) is None,
        },
    decreases labels@.len(),
{
    let mut i: usize = 0;
    loop
        invariant
            i <= labels@.len(),
            forall|j: int| 0 <= j < i ==> (#[trigger] labels@[j])@ != name@,
        decreases labels@.len() - i,
    {
        if i >= labels.len() {
            proof {
                lemma_label_index_none(labels@, name@, i as int);
            }
            return None;
        }
        if labels[i].eq(&name.to_owned()) {
            proof {
                lemma_label_index_found(labels@, name@, i as int);
            }
            return Some(i);
        }
        i = i + 1;
    }
}

/// If no position before `n` carries the label and `n` is the length,
/// the label is absent.
proof fn lemma_label_index_none(labels: Seq<String>, name: Seq<char>, n: int)
    requires
        n == labels.len(),
        forall|j: int| 0 <= j < n ==> (#[trigger] labels[j])@ != name,
    ensures
        spec_label_index(labels, name) is None,
    decreases labels.len(),
{
    if labels.len() > 0 {
        assert(labels[0]@ != name);
        assert(forall|j: int|
            0 <= j < labels.drop_first().len() ==> (#[trigger] labels.drop_first()[j])@ != name)
            by {
            assert(forall|j: int|
                0 <= j < labels.drop_first().len() ==> labels.drop_first()[j] == labels[j + 1]);
        }
        lemma_label_index_none(labels.drop_first(), name, n - 1);
    }
}

/// If position `n` carries the label and no earlier position does, the
/// label's first position is `n`.
proof fn lemma_label_index_found(labels: Seq<String>, name: Seq<char>, n: int)
    requires
        0 <= n < labels.len(),
        labels[n]@ == name,
        forall|j: int| 0 <= j < n ==> (#[trigger] labels[j])@ != name,
    ensures
        spec_label_index(labels, name) == Some(n),
    decreases labels.len(),
{
    if n == 0 {
    } else {
        assert(labels[0]@ != name);
        assert(labels.drop_first()[n - 1] == labels[n]);
        assert(forall|j: int|
            0 <= j < n - 1 ==> (#[trigger] labels.drop_first()[j])@ != name) by {
            assert(forall|j: int|
                0 <= j < labels.drop_first().len() ==> labels.drop_first()[j] == labels[j + 1]);
        }
        lemma_label_index_found(labels.drop_first(), name, n - 1);
    }
}

impl Task {
    /// Read one task out of a labeled result row; the row layout the
    /// macro-free expansion of the select conversion expects.
    pub fn try_from_row(labels: &Vec<String>, cells: &Vec<Value>) -> (r: Result<Task, Error>)
        ensures
            spec_task_from_row(labels@, cells@) matches Some(t) ==> r == Ok::<Task, Error>(t),
            spec_task_from_row(labels@, cells@) is None ==> (r matches Err(e)
                && e matches Error::DatabaseError(_)),
    {
        let ti = label_index(labels, "title");
        let ci = label_index(labels, "completed");
        let si = label_index(labels, "source");
        match (ti, ci, si) {
            (Some(ti), Some(ci), Some(si)) => {
                if ti < cells.len() && ci < cells.len() && si < cells.len() {
                    let title = match &cells[ti] {
                        Value::Str(s) => s.clone(),
                        _ => {
                            return Err(
                                Error::DatabaseError("Could not find value".to_owned()),
                            );
                        },
                    };
                    let completed = match &cells[ci] {
                        Value::Bool(b) => *b,
                        _ => {
                            return Err(
                                Error::DatabaseError("Could not find value".to_owned()),
                            );
                        },
                    };
                    let source = match &cells[si] {
                        Value::Str(s) => s.clone(),
                        _ => {
                            return Err(
                                Error::DatabaseError("Could not find value".to_owned()),
                            );
                        },
                    };
                    Ok(Task { title, completed, source: Some(source) })
                } else {
                    Err(Error::DatabaseError("Could not find value".to_owned()))
                }
            },
            _ => Err(Error::DatabaseError("Could not find value".to_owned())),
        }
    }
}

/// The tasks every row of a select result denotes.
pub open spec fn spec_tasks_from_rows(labels: Seq<String>, rows: Seq<Seq<Value>>) -> Option<
    Seq<Task>,
>
    decreases rows.len(),
{
    if rows.len() == 0 {
        Some(Seq::empty())
    } else {
        match (spec_tasks_from_rows(labels, rows.drop_last()), spec_task_from_row(
            labels,
            rows.last(),
        )) {
            (Some(ts), Some(t)) => Some(ts.push(t)),
            _ => None,
        }
    }
}

/// The tasks a payload denotes: every row of a select result, when
/// each denotes a task.
pub open spec fn spec_tasks_of_payload(p: Payload) -> Option<Seq<Task>> {
    match p {
        Payload::Select { labels, rows } => spec_tasks_from_rows(labels@, rows.deep_view()),
        _ => None,
    }
}

/// Read every task out of a select payload; any other payload kind, or
/// a row of the wrong shape, is a database error.
pub fn tasks_from_payload(p: &Payload) -> (r: Result<Vec<Task>, Error>)
    ensures
        spec_tasks_of_payload(*p) matches Some(ts) ==> (r matches Ok(v) && v@ == ts),
        spec_tasks_of_payload(*p) is None ==> (r matches Err(e)
            && e matches Error::DatabaseError(_)),
    {
    match p {
        Payload::Select { labels, rows } => {
            let mut out: Vec<Task> = Vec::new();
            let mut i: usize = 0;
            while i < rows.len()
                invariant
                    i <= rows@.len(),
                    spec_tasks_of_payload(*p) == spec_tasks_from_rows(labels@, rows.deep_view()),
                    spec_tasks_from_rows(labels@, rows.deep_view().take(i as int)) == Some(out@),
                decreases rows@.len() - i,
            {
                proof {
                    assert(rows.deep_view().len() == rows@.len());
                    assert(rows.deep_view()[i as int] =~= rows@[i as int]@);
                }
                let res = Task::try_from_row(labels, &rows[i]);
                match res {
                    Ok(t) => {
                        out.push(t);
                    },
                    Err(e) => {
                        proof {
                            assert(spec_task_from_row(labels@, rows@[i as int]@) is None);
                            assert(spec_task_from_row(labels@, rows.deep_view()[i as int]) is None);
                            lemma_tasks_from_rows_bad(labels@, rows.deep_view(), i as int);
                            assert(spec_tasks_from_rows(labels@, rows.deep_view()) is None);
                            assert(spec_tasks_of_payload(*p) is None);
                        }
                        return Err(e);
                    },
                }
                proof {
                    let pre = rows.deep_view().take(i as int);
                    let now = rows.deep_view().take(i + 1 as int);
                    assert(now.drop_last() =~= pre);
                    assert(now.last() =~= rows.deep_view()[i as int]);
                }
                i = i + 1;
            }
            proof {
                assert(rows.deep_view().take(rows.deep_view().len() as int) =~= rows.deep_view());
            }
            Ok(out)
        },
        _ => Err(Error::DatabaseError("invalid payload type".to_owned())),
    }
}

/// A row that denotes no task poisons the whole listing.
proof fn lemma_tasks_from_rows_bad(labels: Seq<String>, rows: Seq<Seq<Value>>, i: int)
    requires
        0 <= i < rows.len(),
        spec_task_from_row(labels, rows[i]) is None,
    ensures
        spec_tasks_from_rows(labels, rows) is None,
    decreases rows.len(),
{
    if rows.len() > 0 {
        if i == rows.len() - 1 {
        } else {
            assert(rows.drop_last()[i] == rows[i]);
            lemma_tasks_from_rows_bad(labels, rows.drop_last(), i);
        }
    }
}


/// The tasks of a result-row listing, as `Task` values.
pub open spec fn spec_tasks_of_rows(trs: Seq<TaskRow>) -> Seq<Task> {
    trs.map_values(
        |t: TaskRow| Task { title: t.title, completed: t.completed, source: Some(t.source) },
    )
}

/// With the canonical column layout, every row of a tasks listing
/// denotes its task.
proof fn lemma_task_rows_decode(labels: Seq<String>, trs: Seq<TaskRow>)
    requires
        spec_label_index(labels, "title"@) == Some(0int),
        spec_label_index(labels, "completed"@) == Some(1int),
        spec_label_index(labels, "source"@) == Some(2int),
    ensures
        spec_tasks_from_rows(labels, spec_task_rows(trs)) == Some(spec_tasks_of_rows(trs)),
    decreases trs.len(),
{
    if trs.len() == 0 {
        assert(spec_tasks_of_rows(trs) =~= Seq::<Task>::empty());
    } else {
        lemma_task_rows_decode(labels, trs.drop_last());
        let rows = spec_task_rows(trs);
        assert(rows.drop_last() =~= spec_task_rows(trs.drop_last()));
        assert(rows.last() == spec_task_cells(trs.last()));
        assert(spec_tasks_of_rows(trs) =~= spec_tasks_of_rows(trs.drop_last()).push(
            Task {
                title: trs.last().title,
                completed: trs.last().completed,
                source: Some(trs.last().source),
            },
        ));
    }
}

/// One applied log extends another.
pub open spec fn log_extends(pre: Seq<Seq<char>>, post: Seq<Seq<char>>) -> bool {
    pre.is_prefix_of(post)
}

/// Extending an extension still extends.
proof fn lemma_log_extends_push(pre: Seq<Seq<char>>, post: Seq<Seq<char>>, x: Seq<char>)
    requires
        log_extends(pre, post),
    ensures
        log_extends(pre, post.push(x)),
{
    assert(post.push(x).subrange(0, pre.len() as int) =~= post.subrange(0, pre.len() as int));
}

/// The task rows a document's marker events contribute: one for each
/// task-list marker immediately followed by a text event.
pub open spec fn spec_marker_contribution(events: Seq<DocEvent>, src: String, i: int) -> Seq<
    TaskRow,
> {
    if 0 <= i && i + 1 < events.len() {
        match (events[i], events[i + 1]) {
            (DocEvent::TaskListMarker(state), DocEvent::Text(text)) => seq![
                TaskRow { title: text, completed: state, source: src },
            ],
            _ => Seq::empty(),
        }
    } else {
        Seq::empty()
    }
}

/// The marker tasks contributed by positions below `n`.
pub open spec fn spec_marker_tasks_upto(events: Seq<DocEvent>, src: String, n: int) -> Seq<TaskRow>
    decreases n,
{
    if n <= 0 {
        Seq::empty()
    } else {
        spec_marker_tasks_upto(events, src, n - 1) + spec_marker_contribution(events, src, n - 1)
    }
}

/// Every task a document's events contribute, in document order.
pub open spec fn spec_marker_tasks(events: Seq<DocEvent>, src: String) -> Seq<TaskRow> {
    spec_marker_tasks_upto(events, src, events.len() as int)
}

/// What `Tasks::process_file` does to the store and the file: the
/// plugin first deletes every stored task from this file, then inserts
/// one task per task-list marker followed by a text event, and hands
/// the file back unchanged. With no tasks table the delete fails and
/// the whole call aborts; a non-markdown file aborts after the delete.
pub open spec fn spec_tasks_process_rel(
    pre: Store,
    post: Store,
    file: File,
    r: Result<File, Error>,
) -> bool {
    &&& post.subscriptions@ == pre.subscriptions@
    &&& post.vaults@ == pre.vaults@
    &&& post.entries@ == pre.entries@
    &&& post.tasks_created == pre.tasks_created
    &&& log_extends(pre.applied.deep_view(), post.applied.deep_view())
    &&& if !pre.tasks_created {
        post.tasks@ == pre.tasks@ && (r matches Err(e) && e matches Error::DatabaseError(_))
    } else {
        match file.data {
            FileType::Markdown(evs) => {
                &&& post.tasks@ == spec_tasks_without_source(pre.tasks@, file.path@)
                    + spec_marker_tasks(evs@, file.path)
                &&& (r matches Ok(f) && f == file)
            },
            FileType::Unknown => {
                &&& post.tasks@ == spec_tasks_without_source(pre.tasks@, file.path@)
                &&& (r matches Err(e) && e matches Error::FileCodec(_))
            },
        }
    }
}

/// The tasks plugin: tracks every task-list item of every processed
/// document in its own `tasks` table.
#[derive(Debug, Clone, PartialEq, Eq, Structural)]
pub struct Tasks;

impl Tasks {
    /// Subscribe to task events and task-list markers, and create the
    /// tasks table.
    pub fn run_load(&self, ctx: &mut Context) -> (r: Result<(), Error>)
        requires
            old(ctx).wf(),
        ensures
            final(ctx).wf(),
            final(ctx).plugin == old(ctx).plugin,
            final(ctx).actor.mailbox.capacity == old(ctx).actor.mailbox.capacity,
            r is Ok,
            final(ctx).actor.store.tasks_created,
            final(ctx).actor.store.vaults@ == old(ctx).actor.store.vaults@,
            final(ctx).actor.store.entries@ == old(ctx).actor.store.entries@,
            final(ctx).actor.store.tasks@ == old(ctx).actor.store.tasks@,
            final(ctx).actor.store.subscriptions@.len() == old(ctx).actor.store.subscriptions@.len() + 2,
            final(ctx).actor.store.subscriptions@.take(
                old(ctx).actor.store.subscriptions@.len() as int,
            ) == old(ctx).actor.store.subscriptions@,
            sub_view(
                final(ctx).actor.store.subscriptions@[old(ctx).actor.store.subscriptions@.len() as int],
                old(ctx).plugin@,
                "tasks::TaskEvent"@,
                "tasks::Tasks"@,
                "TaskEvent::Add"@,
            ),
            sub_view(
                final(ctx).actor.store.subscriptions@.last(),
                old(ctx).plugin@,
                spec_markdown_namespace(),
                "types::IdentityPlugin"@,
                spec_matcher_data(MarkdownEvent::TaskList),
            ),
            log_extends(
                old(ctx).actor.store.applied.deep_view(),
                final(ctx).actor.store.applied.deep_view(),
            ),
    {
        let ghost subs0 = ctx.actor.store.subscriptions@;
        let ghost log0 = ctx.actor.store.applied.deep_view();
        let e1 = TaskEvent::Add;
        let s1 = e1.to_subscription();
        let r1 = ctx.subscribe(s1);
        if let Err(e) = r1 {
            proof {
                assert(false);
            }
            return Err(e);
        }
        proof {
            lemma_log_extends_push(log0, log0, ctx.actor.store.applied.deep_view().last());
        }
        let s2 = MarkdownEvent::TaskList.to_subscription();
        let r2 = ctx.subscribe(s2);
        if let Err(e) = r2 {
            proof {
                assert(false);
            }
            return Err(e);
        }
        let r3 = ctx.run_statement(CoreStatement::CreateTasksTable);
        if let Err(e) = r3 {
            proof {
                assert(false);
            }
            return Err(e);
        }
        proof {
            assert(ctx.actor.store.subscriptions@.take(subs0.len() as int) =~= subs0);
            assert(log_extends(log0, ctx.actor.store.applied.deep_view()));
        }
        Ok(())
    }

    /// Rebuild this file's task rows from its task-list markers.
    pub fn run_process_file(&self, ctx: &mut Context, file: File) -> (r: Result<File, Error>)
        requires
            old(ctx).wf(),
        ensures
            final(ctx).wf(),
            final(ctx).plugin == old(ctx).plugin,
            final(ctx).actor.mailbox.capacity == old(ctx).actor.mailbox.capacity,
            spec_tasks_process_rel(old(ctx).actor.store, final(ctx).actor.store, file, r),
    {
        let ghost pre = ctx.actor.store;
        let ghost file0 = file;
        let del = ctx.run_statement(
            CoreStatement::DeleteTasksBySource(file.path.clone()),
        );
        if let Err(e) = del {
            return Err(e);
        }
        proof {
            lemma_log_extends_push(pre.applied.deep_view(), pre.applied.deep_view(),
                ctx.actor.store.applied.deep_view().last());
        }
        let evs: &Vec<DocEvent> = match &file.data {
            FileType::Markdown(evs) => evs,
            FileType::Unknown => {
                return Err(Error::FileCodec("not a markdown file".to_owned()));
            },
        };
        let ghost base = ctx.actor.store.tasks@;
        let mut i: usize = 0;
        while i < evs.len()
            invariant
                i <= evs@.len(),
                ctx.wf(),
                ctx.plugin == old(ctx).plugin,
                ctx.actor.mailbox.capacity == old(ctx).actor.mailbox.capacity,
                ctx.actor.store.tasks_created,
                pre.tasks_created,
                file0.data matches FileType::Markdown(e0) && e0@ == evs@,
                file0.path == file.path,
                base == spec_tasks_without_source(pre.tasks@, file0.path@),
                ctx.actor.store.subscriptions@ == pre.subscriptions@,
                ctx.actor.store.vaults@ == pre.vaults@,
                ctx.actor.store.entries@ == pre.entries@,
                ctx.actor.store.tasks@ == base + spec_marker_tasks_upto(
                    evs@,
                    file0.path,
                    i as int,
                ),
                log_extends(pre.applied.deep_view(), ctx.actor.store.applied.deep_view()),
            decreases evs@.len() - i,
        {
            let ghost log_i = ctx.actor.store.applied.deep_view();
            if i + 1 < evs.len() {
                let mk = &evs[i];
                if let DocEvent::TaskListMarker(state) = mk {
                    if let DocEvent::Text(text) = &evs[i + 1] {
                        let row = TaskRow {
                            title: text.clone(),
                            completed: *state,
                            source: file.path.clone(),
                        };
                        proof {
                            assert(row == spec_marker_contribution(evs@, file0.path, i as int)[0]);
                        }
                        let ins = ctx.run_statement(CoreStatement::InsertTask(row));
                        if let Err(e) = ins {
                            proof {
                                assert(false);
                            }
                            return Err(e);
                        }
                    }
                }
            }
            proof {
                assert(spec_marker_tasks_upto(evs@, file0.path, i + 1 as int)
                    == spec_marker_tasks_upto(evs@, file0.path, i as int)
                    + spec_marker_contribution(evs@, file0.path, i as int));
                assert(ctx.actor.store.tasks@ =~= base + spec_marker_tasks_upto(
                    evs@,
                    file0.path,
                    i + 1 as int,
                ));
                if log_i != ctx.actor.store.applied.deep_view() {
                    assert(log_extends(pre.applied.deep_view(),
                        ctx.actor.store.applied.deep_view()));
                }
            }
            i = i + 1;
        }
        proof {
            assert(spec_marker_tasks_upto(evs@, file0.path, evs@.len() as int)
                == spec_marker_tasks(evs@, file0.path));
        }
        Ok(file)
    }
}

/// One subscription row's columns, at the view level.
pub open spec fn sub_view(
    row: SubscriptionRow,
    plugin: Seq<char>,
    ev: Seq<char>,
    et: Seq<char>,
    data: Seq<char>,
) -> bool {
    row.plugin@ == plugin && row.event@ == ev && row.event_type@ == et && row.data@ == data
}


/// Whether position `i` of the original events is the text body of a
/// fenced data-view code block, and therefore replaced by the plugin.
pub open spec fn spec_dv_replaced(events: Seq<DocEvent>, i: int) -> bool {
    &&& 1 <= i < events.len()
    &&& events[i] is Text
    &&& (events[i - 1] matches DocEvent::Start(t) && t matches DocTag::CodeBlock(k)
        && k matches DocCodeBlockKind::Fenced(tag) && spec_contains(tag@, "dataview"@))
}

/// The literal text at a position, when the position holds text.
pub open spec fn spec_text_at(events: Seq<DocEvent>, i: int) -> Seq<char> {
    if 0 <= i < events.len() {
        match events[i] {
            DocEvent::Text(t) => t@,
            _ => Seq::empty(),
        }
    } else {
        Seq::empty()
    }
}

/// Whether the read-only query at a replaced position succeeds: the
/// text must pass the read-only gate, and a tasks listing needs the
/// tasks table.
pub open spec fn spec_dv_pos_ok(pre: Store, t: Seq<char>) -> bool {
    spec_read_only_ok(t) && (spec_is_tasks_listing(t) ==> pre.tasks_created)
}

/// The text spliced in at a replaced position: the rendering of what
/// the query answered. A tasks listing renders the stored tasks; any
/// other query is outside the modeled schema and renders empty.
pub open spec fn spec_dv_text(pre: Store, t: Seq<char>) -> Seq<char> {
    if spec_is_tasks_listing(t) {
        spec_rows_text(spec_task_rows(pre.tasks@))
    } else {
        Seq::empty()
    }
}

/// What `DataView::process_file` does: each fenced `dataview` block's
/// text is treated as a read-only query and replaced by the rendering
/// of its result; every query is read-gated, so the tables never
/// change. A failing query aborts the whole call.
pub open spec fn spec_dataview_process_rel(
    pre: Store,
    post: Store,
    file: File,
    r: Result<File, Error>,
) -> bool {
    &&& crate::store::tables_unchanged(pre, post)
    &&& log_extends(pre.applied.deep_view(), post.applied.deep_view())
    &&& match file.data {
        FileType::Unknown => r matches Err(e) && e matches Error::FileCodec(_),
        FileType::Markdown(evs) => {
            if forall|i: int|
                #[trigger] spec_dv_replaced(evs@, i) ==> spec_dv_pos_ok(
                    pre,
                    spec_text_at(evs@, i),
                ) {
                r matches Ok(f) && f.path == file.path && (f.data matches FileType::Markdown(out)
                    && out@.len() == evs@.len() && (forall|i: int|
                    #[trigger] spec_dv_replaced(evs@, i) ==> (out@[i] matches DocEvent::Text(t2)
                        && t2@ == spec_dv_text(pre, spec_text_at(evs@, i)))) && (forall|i: int|
                    0 <= i < evs@.len() && !(#[trigger] spec_dv_replaced(evs@, i)) ==> out@[i]
                        == evs@[i]))
            } else {
                r matches Err(e) && e matches Error::DatabaseError(_)
            }
        },
    }
}

/// How a data view is displayed.
#[derive(Debug, Clone, Copy, PartialEq, Eq, Structural)]
pub enum DisplayType {
    List,
    Tasks,
    Table,
}

/// The data-view plugin: splices read-only query results into fenced
/// `dataview` code blocks.
#[derive(Debug, Clone, PartialEq, Eq, Structural)]
pub struct DataView;

impl DataView {
    /// Subscribe to fenced `dataview` code blocks.
    pub fn run_load(&self, ctx: &mut Context) -> (r: Result<(), Error>)
        requires
            old(ctx).wf(),
        ensures
            final(ctx).wf(),
            final(ctx).plugin == old(ctx).plugin,
            final(ctx).actor.mailbox.capacity == old(ctx).actor.mailbox.capacity,
            r is Ok,
            crate::store::same_but_subscriptions(old(ctx).actor.store, final(ctx).actor.store),
            final(ctx).actor.store.subscriptions@.len() == old(ctx).actor.store.subscriptions@.len() + 1,
            final(ctx).actor.store.subscriptions@.take(
                old(ctx).actor.store.subscriptions@.len() as int,
            ) == old(ctx).actor.store.subscriptions@,
            sub_view(
                final(ctx).actor.store.subscriptions@.last(),
                old(ctx).plugin@,
                spec_markdown_namespace(),
                "types::IdentityPlugin"@,
                "Tag:CodeBlock:Fenced:"@ + "/dataview/"@,
            ),
            log_extends(
                old(ctx).actor.store.applied.deep_view(),
                final(ctx).actor.store.applied.deep_view(),
            ),
    {
        let ghost subs0 = ctx.actor.store.subscriptions@;
        let ghost log0 = ctx.actor.store.applied.deep_view();
        let matcher = MarkdownEvent::Tag(
            crate::matcher::Tag::CodeBlock(
                crate::matcher::CodeBlockKind::Fenced("/dataview/".to_owned()),
            ),
        );
        let sub = matcher.to_subscription();
        let r1 = ctx.subscribe(sub);
        if let Err(e) = r1 {
            proof {
                assert(false);
            }
            return Err(e);
        }
        proof {
            assert(ctx.actor.store.subscriptions@.take(subs0.len() as int) =~= subs0);
            lemma_log_extends_push(log0, log0, ctx.actor.store.applied.deep_view().last());
        }
        Ok(())
    }

    /// Replace each fenced `dataview` block's text by its query result.
    #[verifier::loop_isolation(false)]
    pub fn run_process_file(&self, ctx: &mut Context, file: File) -> (r: Result<File, Error>)
        requires
            old(ctx).wf(),
        ensures
            final(ctx).wf(),
            final(ctx).plugin == old(ctx).plugin,
            final(ctx).actor.mailbox.capacity == old(ctx).actor.mailbox.capacity,
            spec_dataview_process_rel(old(ctx).actor.store, final(ctx).actor.store, file, r),
    {
        let ghost pre = ctx.actor.store;
        let File { path, data } = file;
        let mut evs: Vec<DocEvent> = match data {
            FileType::Markdown(evs) => evs,
            FileType::Unknown => {
                return Err(Error::FileCodec("not a markdown file".to_owned()));
            },
        };
        let ghost orig = evs@;
        let mut i: usize = 0;
        while i < evs.len()
            invariant
                i <= evs@.len(),
                evs@.len() == orig.len(),
                ctx.wf(),
                ctx.plugin == old(ctx).plugin,
                ctx.actor.mailbox.capacity == old(ctx).actor.mailbox.capacity,
                pre == old(ctx).actor.store,
                file.data matches FileType::Markdown(e0) && e0@ == orig,
                file.path == path,
                crate::store::tables_unchanged(pre, ctx.actor.store),
                log_extends(pre.applied.deep_view(), ctx.actor.store.applied.deep_view()),
                forall|j: int| i <= j < orig.len() ==> #[trigger] evs@[j] == orig[j],
                forall|j: int|
                    0 <= j < i && !(#[trigger] spec_dv_replaced(orig, j)) ==> evs@[j] == orig[j],
                forall|j: int|
                    0 <= j < i && #[trigger] spec_dv_replaced(orig, j) ==> spec_dv_pos_ok(
                        pre,
                        spec_text_at(orig, j),
                    ) && (evs@[j] matches DocEvent::Text(t2) && t2@ == spec_dv_text(
                        pre,
                        spec_text_at(orig, j),
                    )),
            decreases evs@.len() - i,
        {
            let mut fenced_dataview = false;
            if i >= 1 {
                if let DocEvent::Start(DocTag::CodeBlock(DocCodeBlockKind::Fenced(tag))) = &evs[i
                    - 1] {
                    if str_contains(tag.as_str(), "dataview") {
                        fenced_dataview = true;
                    }
                }
            }
            proof {
                if fenced_dataview && spec_dv_replaced(orig, i as int - 1) {
                    assert(evs@[i as int - 1] is Text);
                    assert(false);
                }
            }
            if fenced_dataview {
                let text: Option<String> = match &evs[i] {
                    DocEvent::Text(t) => Some(t.clone()),
                    _ => None,
                };
                if let Some(text) = text {
                    proof {
                        assert(orig[i as int - 1] == evs@[i as int - 1]);
                        assert(orig[i as int] == evs@[i as int]);
                        assert(spec_dv_replaced(orig, i as int));
                        assert(text@ == spec_text_at(orig, i as int));
                    }
                    let ghost log_before = ctx.actor.store.applied.deep_view();
                    let res = ctx.query(text.as_str());
                    proof {
                        if ctx.actor.store.applied.deep_view() != log_before {
                            lemma_log_extends_push(
                                pre.applied.deep_view(),
                                log_before,
                                ctx.actor.store.applied.deep_view().last(),
                            );
                            assert(ctx.actor.store.applied.deep_view() == log_before.push(
                                ctx.actor.store.applied.deep_view().last(),
                            ));
                        }
                    }
                    match res {
                        Err(e) => {
                            proof {
                                assert(!spec_dv_pos_ok(pre, spec_text_at(orig, i as int)));
                            }
                            return Err(e);
                        },
                        Ok(v) => {
                            // A tasks listing answers one payload; a raw
                            // batch answers one empty result per parsed
                            // statement, possibly none.
                            let rendered = if v.len() > 0 {
                                payload_text(&v[0])
                            } else {
                                String::new()
                            };
                            proof {
                                assert(spec_dv_pos_ok(pre, spec_text_at(orig, i as int)));
                                assert(rendered@ == spec_dv_text(
                                    pre,
                                    spec_text_at(orig, i as int),
                                ));
                            }
                            evs.set(i, DocEvent::Text(rendered));
                        },
                    }
                } else {
                    proof {
                        assert(!spec_dv_replaced(orig, i as int));
                        assert(evs@[i as int] == orig[i as int]);
                    }
                }
            } else {
                proof {
                    if spec_dv_replaced(orig, i as int) {
                        assert(orig[i as int - 1] matches DocEvent::Start(t) && t matches
                            DocTag::CodeBlock(k) && k matches DocCodeBlockKind::Fenced(tag)
                            && spec_contains(tag@, "dataview"@));
                        assert(!spec_dv_replaced(orig, i as int - 1));
                        assert(orig[i as int - 1] == evs@[i as int - 1]);
                        assert(false);
                    }
                }
            }
            i = i + 1;
        }
        Ok(File { path, data: FileType::Markdown(evs) })
    }
}


/// One rendered task item.
pub open spec fn spec_task_item(t: Task) -> Seq<char> {
    "<li data-completed=\""@ + crate::store::spec_bool_text(t.completed) + "\" data-source=\""@
        + (match t.source {
        Some(s) => s@,
        None => "none"@,
    }) + "\">"@ + t.title@ + "</li>"@
}

/// The rendered task items, in order.
pub open spec fn spec_task_items(ts: Seq<Task>) -> Seq<char>
    decreases ts.len(),
{
    if ts.len() == 0 {
        Seq::empty()
    } else {
        spec_task_items(ts.drop_last()) + spec_task_item(ts.last())
    }
}

/// The full rendered task list fragment.
pub open spec fn spec_tasks_html(ts: Seq<Task>) -> Seq<char> {
    "<p>"@ + spec_dec_seq(ts.len()) + " tasks found</p><ul>"@ + spec_task_items(ts) + "</ul>"@
}

/// Render a task list as a markup fragment.
pub fn render_tasks_html(tasks: &Vec<Task>) -> (r: String)
    ensures
        r@ == spec_tasks_html(tasks@),
{
    let mut items = String::new();
    let mut i: usize = 0;
    while i < tasks.len()
        invariant
            i <= tasks@.len(),
            items@ == spec_task_items(tasks@.take(i as int)),
        decreases tasks@.len() - i,
    {
        let t = &tasks[i];
        items.append("<li data-completed=\"");
        if t.completed {
            items.append("true");
        } else {
            items.append("false");
        }
        items.append("\" data-source=\"");
        match &t.source {
            Some(src) => {
                items.append(src.as_str());
            },
            None => {
                items.append("none");
            },
        }
        items.append("\">");
        items.append(t.title.as_str());
        items.append("</li>");
        proof {
            let pre = tasks@.take(i as int);
            let now = tasks@.take(i + 1 as int);
            assert(now.drop_last() =~= pre);
            assert(now.last() == tasks@[i as int]);
            assert(items@ =~= spec_task_items(now));
        }
        i = i + 1;
    }
    proof {
        assert(tasks@.take(tasks@.len() as int) =~= tasks@);
    }
    let mut r: String = "<p>".to_owned();
    let count = usize_to_dec(tasks.len());
    r.append(count.as_str());
    r.append(" tasks found</p><ul>");
    r.append(items.as_str());
    r.append("</ul>");
    r
}

/// What `Tasks::render` does: list the stored tasks through the
/// read-only gate and render them as a markup fragment; without a
/// tasks table the listing is a database error.
pub open spec fn spec_tasks_render_rel(pre: Store, post: Store, r: Result<Rsx, Error>) -> bool {
    &&& crate::store::tables_unchanged(pre, post)
    &&& log_extends(pre.applied.deep_view(), post.applied.deep_view())
    &&& if spec_read_only_ok("Select * from tasks"@) && pre.tasks_created {
        r matches Ok(x) && x.0@ == spec_tasks_html(spec_tasks_of_rows(pre.tasks@))
    } else {
        r matches Err(e) && e matches Error::DatabaseError(_)
    }
}

impl Tasks {
    /// List the stored tasks and render them.
    pub fn run_render(&self, ctx: &mut Context) -> (r: Result<Rsx, Error>)
        requires
            old(ctx).wf(),
        ensures
            final(ctx).wf(),
            final(ctx).plugin == old(ctx).plugin,
            final(ctx).actor.mailbox.capacity == old(ctx).actor.mailbox.capacity,
            spec_tasks_render_rel(old(ctx).actor.store, final(ctx).actor.store, r),
    {
        let ghost pre = ctx.actor.store;
        let ghost log0 = ctx.actor.store.applied.deep_view();
        proof {
            reveal_strlit("Select * from tasks");
            let lit = "Select * from tasks"@;
            assert(lit.len() == 19);
            assert(!crate::context::spec_is_ws(lit.first()));
            assert(!crate::context::spec_is_ws(lit.last()));
            assert(crate::context::spec_trim_start(lit) == lit);
            assert(crate::context::spec_trim_end(lit) == lit);
            assert(spec_is_tasks_listing(lit));
        }
        let res = ctx.query("Select * from tasks");
        proof {
            if ctx.actor.store.applied.deep_view() != log0 {
                lemma_log_extends_push(
                    log0,
                    log0,
                    ctx.actor.store.applied.deep_view().last(),
                );
            }
        }
        let v = match res {
            Ok(v) => v,
            Err(e) => {
                return Err(e);
            },
        };
        let payload = &v[0];
        proof {
            let ls = payload->Select_labels;
            assert(ls.deep_view() =~= seq!["title"@, "completed"@, "source"@]);
            assert(ls.deep_view().len() == ls@.len());
            assert(ls@[0]@ == "title"@ && ls@[1]@ == "completed"@ && ls@[2]@ == "source"@) by {
                assert(ls.deep_view()[0] == ls@[0]@);
                assert(ls.deep_view()[1] == ls@[1]@);
                assert(ls.deep_view()[2] == ls@[2]@);
            }
            reveal_strlit("title");
            reveal_strlit("completed");
            reveal_strlit("source");
            assert("title"@.len() == 5);
            assert("completed"@.len() == 9);
            assert("source"@.len() == 6);
            let l1 = ls@.drop_first();
            let l2 = l1.drop_first();
            assert(l1[0] == ls@[1] && l1[1] == ls@[2]);
            assert(l2[0] == ls@[2]);
            assert(l2.len() == 1 && l1.len() == 2);
            assert(spec_label_index(l2, "source"@) == Some(0int));
            assert(spec_label_index(l1, "completed"@) == Some(0int));
            assert(spec_label_index(l1, "source"@) == Some(1int)) by {
                reveal_with_fuel(spec_label_index, 3);
                assert(l1[0]@ != "source"@);
                assert(l1.drop_first() =~= l2);
            }
            assert(spec_label_index(ls@, "title"@) == Some(0int));
            assert(spec_label_index(ls@, "completed"@) == Some(1int)) by {
                reveal_with_fuel(spec_label_index, 4);
                assert(ls@[0]@ != "completed"@);
                assert(ls@.drop_first() =~= l1);
            }
            assert(spec_label_index(ls@, "source"@) == Some(2int)) by {
                reveal_with_fuel(spec_label_index, 4);
                assert(ls@[0]@ != "source"@);
                assert(ls@.drop_first() =~= l1);
            }
            lemma_task_rows_decode(ls@, pre.tasks@);
        }
        let tasks = match tasks_from_payload(payload) {
            Ok(tasks) => tasks,
            Err(e) => {
                proof {
                    assert(false);
                }
                return Err(e);
            },
        };
        let html = render_tasks_html(&tasks);
        Ok(Rsx(html))
    }
}

/// One of the runtime's built-in plugin implementations; the dispatch
/// pipeline invokes plugins through this closed set.
#[derive(Debug, Clone, Copy, PartialEq, Eq, Structural)]
pub enum PluginKind {
    Tasks,
    DataView,
}

/// Invoke a plugin's `on_load` hook.
pub fn dispatch_on_load(kind: PluginKind, ctx: &mut Context) -> (r: Result<(), Error>)
    requires
        old(ctx).wf(),
    ensures
        final(ctx).wf(),
        final(ctx).plugin == old(ctx).plugin,
        final(ctx).actor.mailbox.capacity == old(ctx).actor.mailbox.capacity,
        r is Ok,
        crate::store::same_but_subscriptions(old(ctx).actor.store, final(ctx).actor.store)
            || kind is Tasks,
        kind is Tasks ==> final(ctx).actor.store.tasks_created && final(ctx).actor.store.vaults@ == old(ctx).actor.store.vaults@ && final(ctx).actor.store.entries@
            == old(ctx).actor.store.entries@ && final(ctx).actor.store.tasks@ == old(ctx).actor.store.tasks@,
        log_extends(
            old(ctx).actor.store.applied.deep_view(),
            final(ctx).actor.store.applied.deep_view(),
        ),
        final(ctx).actor.store.subscriptions@.take(
            old(ctx).actor.store.subscriptions@.len() as int,
        ) == old(ctx).actor.store.subscriptions@,
        kind is Tasks ==> final(ctx).actor.store.subscriptions@.len() == old(ctx).actor.store.subscriptions@.len() + 2 && sub_view(
            final(ctx).actor.store.subscriptions@[old(ctx).actor.store.subscriptions@.len() as int],
            old(ctx).plugin@,
            "tasks::TaskEvent"@,
            "tasks::Tasks"@,
            "TaskEvent::Add"@,
        ) && sub_view(
            final(ctx).actor.store.subscriptions@.last(),
            old(ctx).plugin@,
            spec_markdown_namespace(),
            "types::IdentityPlugin"@,
            spec_matcher_data(MarkdownEvent::TaskList),
        ),
        kind is DataView ==> final(ctx).actor.store.subscriptions@.len() == old(ctx).actor.store.subscriptions@.len() + 1 && sub_view(
            final(ctx).actor.store.subscriptions@.last(),
            old(ctx).plugin@,
            spec_markdown_namespace(),
            "types::IdentityPlugin"@,
            "Tag:CodeBlock:Fenced:"@ + "/dataview/"@,
        ),
{
    match kind {
        PluginKind::Tasks => Tasks.run_load(ctx),
        PluginKind::DataView => DataView.run_load(ctx),
    }
}

/// Invoke a plugin's `process_file` handler.
pub fn dispatch_process_file(kind: PluginKind, ctx: &mut Context, file: File) -> (r: Result<
    File,
    Error,
>)
    requires
        old(ctx).wf(),
    ensures
        final(ctx).wf(),
        final(ctx).plugin == old(ctx).plugin,
        final(ctx).actor.mailbox.capacity == old(ctx).actor.mailbox.capacity,
        kind is Tasks ==> spec_tasks_process_rel(
            old(ctx).actor.store,
            final(ctx).actor.store,
            file,
            r,
        ),
        kind is DataView ==> spec_dataview_process_rel(
            old(ctx).actor.store,
            final(ctx).actor.store,
            file,
            r,
        ),
{
    match kind {
        PluginKind::Tasks => Tasks.run_process_file(ctx, file),
        PluginKind::DataView => DataView.run_process_file(ctx, file),
    }
}

/// Invoke a plugin's `render` hook. A plugin that does not override
/// `render` refuses with `InvalidRender`.
pub fn dispatch_render(kind: PluginKind, ctx: &mut Context, view: Event) -> (r: Result<Rsx, Error>)
    requires
        old(ctx).wf(),
    ensures
        final(ctx).wf(),
        final(ctx).plugin == old(ctx).plugin,
        final(ctx).actor.mailbox.capacity == old(ctx).actor.mailbox.capacity,
        kind is Tasks ==> spec_tasks_render_rel(old(ctx).actor.store, final(ctx).actor.store, r),
        kind is DataView ==> *final(ctx) == *old(ctx) && (r matches Err(e)
            && e is InvalidRender),
{
    match kind {
        PluginKind::Tasks => Tasks.run_render(ctx),
        PluginKind::DataView => Err(Error::InvalidRender),
    }
}

/// Invoke a plugin's `on_event` hook; both built-in plugins leave it
/// at the default, which does nothing.
pub fn dispatch_on_event(kind: PluginKind, ctx: &mut Context, ev: Event) -> (r: Result<(), Error>)
    requires
        old(ctx).wf(),
    ensures
        final(ctx).wf(),
        *final(ctx) == *old(ctx),
        r is Ok,
{
    Ok(())
}

/// Invoke a plugin's `on_unload` hook; both built-in plugins leave it
/// at the default, which does nothing.
pub fn dispatch_on_unload(kind: PluginKind, ctx: &mut Context) -> (r: Result<(), Error>)
    requires
        old(ctx).wf(),
    ensures
        final(ctx).wf(),
        *final(ctx) == *old(ctx),
        r is Ok,
{
    Ok(())
}

impl Plugin for Tasks {
    fn on_load(&self, ctx: &mut Context) -> (r: Result<(), Error>) {
        self.run_load(ctx)
    }

    fn process_file(&self, ctx: &mut Context, file: File) -> (r: Result<File, Error>) {
        self.run_process_file(ctx, file)
    }

    fn render(&self, ctx: &mut Context, view: Event) -> (r: Result<Rsx, Error>) {
        self.run_render(ctx)
    }
}

impl Plugin for DataView {
    fn on_load(&self, ctx: &mut Context) -> (r: Result<(), Error>) {
        self.run_load(ctx)
    }

    fn process_file(&self, ctx: &mut Context, file: File) -> (r: Result<File, Error>) {
        self.run_process_file(ctx, file)
    }
}


impl Context {
    /// Record one task for the current plugin's own bookkeeping. The
    /// insert is fire-and-forget: with no tasks table it does nothing.
    pub fn add_task(&mut self, task: &Task)
        requires
            old(self).wf(),
        ensures
            final(self).wf(),
            final(self).plugin == old(self).plugin,
            final(self).actor.mailbox.capacity == old(self).actor.mailbox.capacity,
            final(self).actor.store.subscriptions@ == old(self).actor.store.subscriptions@,
            final(self).actor.store.vaults@ == old(self).actor.store.vaults@,
            final(self).actor.store.entries@ == old(self).actor.store.entries@,
            final(self).actor.store.tasks_created == old(self).actor.store.tasks_created,
            old(self).actor.store.tasks_created ==> ({
                let tasks = final(self).actor.store.tasks@;
                &&& tasks.len() == old(self).actor.store.tasks@.len() + 1
                &&& tasks.drop_last() == old(self).actor.store.tasks@
                &&& tasks.last().title == task.title
                &&& tasks.last().completed == task.completed
                &&& tasks.last().source@ == (match task.source {
                    Some(s) => s@,
                    None => Seq::<char>::empty(),
                })
            }),
            !old(self).actor.store.tasks_created ==> final(self).actor.store.tasks@ == old(
                self,
            ).actor.store.tasks@,
    {
        let source: String = match &task.source {
            Some(s) => s.clone(),
            None => String::new(),
        };
        let row = TaskRow { title: task.title.clone(), completed: task.completed, source };
        let ghost pre_tasks = self.actor.store.tasks@;
        let _ = self.run_statement(CoreStatement::InsertTask(row));
        proof {
            if old(self).actor.store.tasks_created {
                assert(self.actor.store.tasks@.drop_last() =~= pre_tasks);
            }
        }
    }
}

} // verus!




