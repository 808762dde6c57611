//! The laws the runtime's components obey, stated over the same spec
//! functions their contracts use.
//!
//! Laws that are a single function's promise live in that function's
//! `ensures` instead: the read-only gate never reaches the actor
//! (`Database::query`), a send against a saturated mailbox suspends
//! without dropping (`Mailbox::try_send`), and the matched-plugin set
//! is deduplicated (`lemma_matched_no_duplicates` beside the pipeline).

use vstd::prelude::*;

use crate::errors::Error;
use crate::markdown::{events_model, File, FileType};
use crate::payload::Payload;
use crate::plugins::{spec_dataview_process_rel, spec_tasks_process_rel};
use crate::plugins::PluginKind;
use crate::runtime::{
    spec_doc_of, spec_fold_rel, spec_kind_process_rel, spec_kinds_of, spec_matched,
    spec_render_rel, spec_rows_decode_ok, spec_rows_err, RegisteredPlugin,
};
use crate::store::{
    spec_apply_rel, spec_sub_cells, spec_subs_rows, spec_task_cells, spec_task_rows,
    spec_tasks_without_source, CoreStatement, Store, SubscriptionRow, TaskRow,
};

verus! {

/// LAW (subscription round trip): inserting a subscription through the
/// storage actor and then listing the subscriptions of its namespace
/// returns exactly one row, holding the original plugin, namespace,
/// kind and payload — provided the namespace held no row before.
pub proof fn lemma_subscription_roundtrip(
    pre: Store,
    mid: Store,
    post: Store,
    row: SubscriptionRow,
    ev: SubscriptionRow,
    r1: Result<Payload, Error>,
    r2: Result<Payload, Error>,
)
    requires
        spec_apply_rel(pre, mid, CoreStatement::InsertSubscription(row), r1),
        spec_apply_rel(mid, post, CoreStatement::SelectSubscriptionsByEvent(ev.event), r2),
        ev.event@ == row.event@,
        spec_subs_rows(pre.subscriptions@, row.event@).len() == 0,
    ensures
        r2 matches Ok(p) && (p matches Payload::Select { labels, rows } && rows.deep_view()
            =~= seq![spec_sub_cells(row)]),
{
    assert(mid.subscriptions@ == pre.subscriptions@.push(row));
    assert(mid.subscriptions@.drop_last() =~= pre.subscriptions@);
    assert(mid.subscriptions@.last() == row);
    assert(spec_subs_rows(pre.subscriptions@, row.event@) =~= Seq::<Seq<
        crate::payload::Value,
    >>::empty());
    assert(spec_subs_rows(mid.subscriptions@, row.event@) =~= seq![spec_sub_cells(row)]);
}

/// LAW (read-after-write visibility): a task insert that went through
/// the single-writer actor is visible to the listing served after it —
/// the listing's last row is exactly the inserted task, on top of what
/// was there before.
pub proof fn lemma_task_read_after_write(
    pre: Store,
    mid: Store,
    post: Store,
    t: TaskRow,
    r1: Result<Payload, Error>,
    r2: Result<Payload, Error>,
)
    requires
        pre.tasks_created,
        spec_apply_rel(pre, mid, CoreStatement::InsertTask(t), r1),
        spec_apply_rel(mid, post, CoreStatement::SelectTasks, r2),
    ensures
        r2 matches Ok(p) && (p matches Payload::Select { labels, rows } && rows.deep_view().len()
            == pre.tasks@.len() + 1 && rows.deep_view().last() == spec_task_cells(t)
            && rows.deep_view() =~= spec_task_rows(pre.tasks@).push(spec_task_cells(t))),
{
    assert(mid.tasks@ == pre.tasks@.push(t));
    assert(mid.tasks@.drop_last() =~= pre.tasks@);
    assert(mid.tasks@.last() == t);
    lemma_task_rows_len(pre.tasks@);
    assert(spec_task_rows(mid.tasks@) =~= spec_task_rows(pre.tasks@).push(spec_task_cells(t)));
}

/// A tasks listing has one row per task.
proof fn lemma_task_rows_len(tasks: Seq<TaskRow>)
    ensures
        spec_task_rows(tasks).len() == tasks.len(),
    decreases tasks.len(),
{
    if tasks.len() > 0 {
        lemma_task_rows_len(tasks.drop_last());
    }
}

/// LAW (determinism, tasks stage): running the tasks plugin's
/// `process_file` twice from the same store and the same file reaches
/// the same tables, and both runs succeed or fail together, with equal
/// files on success.
pub proof fn lemma_tasks_process_deterministic(
    pre: Store,
    p1: Store,
    p2: Store,
    file: File,
    r1: Result<File, Error>,
    r2: Result<File, Error>,
)
    requires
        spec_tasks_process_rel(pre, p1, file, r1),
        spec_tasks_process_rel(pre, p2, file, r2),
    ensures
        p1.subscriptions@ == p2.subscriptions@,
        p1.vaults@ == p2.vaults@,
        p1.entries@ == p2.entries@,
        p1.tasks@ == p2.tasks@,
        p1.tasks_created == p2.tasks_created,
        r1 is Ok <==> r2 is Ok,
        r1 matches Ok(f1) ==> (r2 matches Ok(f2) && f1 == f2),
{
}

/// LAW (determinism, data-view stage): running the data-view plugin's
/// `process_file` twice from the same store and the same file leaves
/// the tables equal, both runs succeed or fail together, and on
/// success the two output documents have the same event-sequence
/// model, hence serialize to the same markdown text.
pub proof fn lemma_dataview_process_deterministic(
    pre: Store,
    p1: Store,
    p2: Store,
    file: File,
    r1: Result<File, Error>,
    r2: Result<File, Error>,
)
    requires
        spec_dataview_process_rel(pre, p1, file, r1),
        spec_dataview_process_rel(pre, p2, file, r2),
    ensures
        p1.subscriptions@ == p2.subscriptions@,
        p1.vaults@ == p2.vaults@,
        p1.entries@ == p2.entries@,
        p1.tasks@ == p2.tasks@,
        p1.tasks_created == p2.tasks_created,
        r1 is Ok <==> r2 is Ok,
        r1 matches Ok(f1) ==> (r2 matches Ok(f2) && f1.path@ == f2.path@ && (
        f1.data matches FileType::Markdown(e1) && (f2.data matches FileType::Markdown(e2)
            && events_model(e1@) == events_model(e2@)))),
{
    match file.data {
        FileType::Markdown(evs) => {
            if r1 is Ok && r2 is Ok {
                let f1 = r1.unwrap();
                let f2 = r2.unwrap();
                match (f1.data, f2.data) {
                    (FileType::Markdown(e1), FileType::Markdown(e2)) => {
                        assert(events_model(e1@) =~= events_model(e2@)) by {
                            assert forall|i: int|
                                0 <= i < events_model(e1@).len() implies events_model(e1@)[i]
                                == events_model(e2@)[i] by {
                                if crate::plugins::spec_dv_replaced(evs@, i) {
                                    assert(e1@[i] matches crate::events::DocEvent::Text(t1));
                                    assert(e2@[i] matches crate::events::DocEvent::Text(t2));
                                } else {
                                    assert(e1@[i] == evs@[i]);
                                    assert(e2@[i] == evs@[i]);
                                }
                            }
                        }
                    },
                    _ => {},
                }
            }
        },
        FileType::Unknown => {},
    }
}


/// The observable content of a task row: every literal as characters.
pub open spec fn task_view(t: TaskRow) -> (Seq<char>, bool, Seq<char>) {
    (t.title@, t.completed, t.source@)
}

/// The observable content of a tasks table.
pub open spec fn tasks_view(ts: Seq<TaskRow>) -> Seq<(Seq<char>, bool, Seq<char>)> {
    ts.map_values(|t: TaskRow| task_view(t))
}

/// Two documents with the same model.
pub open spec fn file_view_eq(f1: File, f2: File) -> bool {
    &&& f1.path@ == f2.path@
    &&& (f1.data is Markdown <==> f2.data is Markdown)
    &&& crate::runtime::spec_doc_of(f1) == crate::runtime::spec_doc_of(f2)
}

/// Two stores whose tables agree, up to the characters they hold; the
/// applied logs may differ.
pub open spec fn tables_view_eq(s1: Store, s2: Store) -> bool {
    &&& s1.subscriptions@ == s2.subscriptions@
    &&& s1.vaults@ == s2.vaults@
    &&& s1.entries@ == s2.entries@
    &&& s1.tasks_created == s2.tasks_created
    &&& tasks_view(s1.tasks@) == tasks_view(s2.tasks@)
}

/// Deleting by equal sources from view-equal tables leaves view-equal
/// tables.
proof fn lemma_without_source_view(t1: Seq<TaskRow>, t2: Seq<TaskRow>, src1: Seq<char>, src2: Seq<char>)
    requires
        tasks_view(t1) == tasks_view(t2),
        src1 == src2,
    ensures
        tasks_view(spec_tasks_without_source(t1, src1)) == tasks_view(
            spec_tasks_without_source(t2, src2),
        ),
    decreases t1.len(),
{
    assert(tasks_view(t1).len() == t1.len());
    assert(tasks_view(t2).len() == t2.len());
    if t1.len() > 0 {
        assert(tasks_view(t1.drop_last()) =~= tasks_view(t1).drop_last());
        assert(tasks_view(t2.drop_last()) =~= tasks_view(t2).drop_last());
        lemma_without_source_view(t1.drop_last(), t2.drop_last(), src1, src2);
        assert(tasks_view(t1)[t1.len() - 1] == task_view(t1.last()));
        assert(tasks_view(t2)[t2.len() - 1] == task_view(t2.last()));
        assert(t1.last().source@ == t2.last().source@);
        if t1.last().source@ == src1 {
        } else {
            assert(tasks_view(spec_tasks_without_source(t1, src1)) =~= tasks_view(
                spec_tasks_without_source(t1.drop_last(), src1),
            ).push(task_view(t1.last())));
            assert(tasks_view(spec_tasks_without_source(t2, src2)) =~= tasks_view(
                spec_tasks_without_source(t2.drop_last(), src2),
            ).push(task_view(t2.last())));
        }
    } else {
        assert(t2.len() == 0);
    }
}

/// Model-equal documents contribute view-equal marker tasks.
proof fn lemma_marker_tasks_view(
    e1: Seq<crate::events::DocEvent>,
    e2: Seq<crate::events::DocEvent>,
    p1: String,
    p2: String,
    n: int,
)
    requires
        events_model(e1) == events_model(e2),
        p1@ == p2@,
        n <= e1.len(),
    ensures
        tasks_view(crate::plugins::spec_marker_tasks_upto(e1, p1, n)) == tasks_view(
            crate::plugins::spec_marker_tasks_upto(e2, p2, n),
        ),
    decreases n,
{
    assert(events_model(e1).len() == e1.len());
    assert(events_model(e2).len() == e2.len());
    if n > 0 {
        lemma_marker_tasks_view(e1, e2, p1, p2, n - 1);
        assert(events_model(e1)[n - 1] == crate::markdown::doc_event_model(e1[n - 1]));
        assert(events_model(e2)[n - 1] == crate::markdown::doc_event_model(e2[n - 1]));
        if n < e1.len() {
            assert(events_model(e1)[n] == crate::markdown::doc_event_model(e1[n]));
            assert(events_model(e2)[n] == crate::markdown::doc_event_model(e2[n]));
        }
        let c1 = crate::plugins::spec_marker_contribution(e1, p1, n - 1);
        let c2 = crate::plugins::spec_marker_contribution(e2, p2, n - 1);
        assert(tasks_view(c1) =~= tasks_view(c2));
        assert(tasks_view(crate::plugins::spec_marker_tasks_upto(e1, p1, n)) =~= tasks_view(
            crate::plugins::spec_marker_tasks_upto(e1, p1, n - 1),
        ) + tasks_view(c1));
        assert(tasks_view(crate::plugins::spec_marker_tasks_upto(e2, p2, n)) =~= tasks_view(
            crate::plugins::spec_marker_tasks_upto(e2, p2, n - 1),
        ) + tasks_view(c2));
    }
}

/// View-equal tasks tables render as the same text.
proof fn lemma_task_rows_text_view(t1: Seq<TaskRow>, t2: Seq<TaskRow>)
    requires
        tasks_view(t1) == tasks_view(t2),
    ensures
        crate::payload::spec_rows_text(spec_task_rows(t1)) == crate::payload::spec_rows_text(
            spec_task_rows(t2),
        ),
    decreases t1.len(),
{
    assert(tasks_view(t1).len() == t1.len());
    assert(tasks_view(t2).len() == t2.len());
    if t1.len() > 0 {
        assert(tasks_view(t1.drop_last()) =~= tasks_view(t1).drop_last());
        assert(tasks_view(t2.drop_last()) =~= tasks_view(t2).drop_last());
        lemma_task_rows_text_view(t1.drop_last(), t2.drop_last());
        assert(tasks_view(t1)[t1.len() - 1] == task_view(t1.last()));
        assert(tasks_view(t2)[t2.len() - 1] == task_view(t2.last()));
        assert(spec_task_rows(t1).drop_last() =~= spec_task_rows(t1.drop_last()));
        assert(spec_task_rows(t2).drop_last() =~= spec_task_rows(t2.drop_last()));
        assert(spec_task_rows(t1).last() == spec_task_cells(t1.last()));
        assert(spec_task_rows(t2).last() == spec_task_cells(t2.last()));
        lemma_task_rows_len_pair(t1, t2);
        lemma_task_cells_text(t1.last(), t2.last());
    } else {
        assert(t2.len() == 0);
    }
}

/// View-equal task rows render as the same result-row text.
proof fn lemma_task_cells_text(a: TaskRow, b: TaskRow)
    requires
        task_view(a) == task_view(b),
    ensures
        crate::payload::spec_row_text(spec_task_cells(a)) == crate::payload::spec_row_text(
            spec_task_cells(b),
        ),
{
    let ra = spec_task_cells(a);
    let rb = spec_task_cells(b);
    reveal_with_fuel(crate::payload::spec_row_text, 4);
    assert(ra.drop_last() =~= seq![
        crate::payload::Value::Str(a.title),
        crate::payload::Value::Bool(a.completed),
    ]);
    assert(ra.drop_last().drop_last() =~= seq![crate::payload::Value::Str(a.title)]);
    assert(rb.drop_last() =~= seq![
        crate::payload::Value::Str(b.title),
        crate::payload::Value::Bool(b.completed),
    ]);
    assert(rb.drop_last().drop_last() =~= seq![crate::payload::Value::Str(b.title)]);
    assert(crate::payload::spec_value_text(ra.drop_last().drop_last()[0])
        == crate::payload::spec_value_text(rb.drop_last().drop_last()[0]));
    assert(crate::payload::spec_value_text(ra.drop_last().last())
        == crate::payload::spec_value_text(rb.drop_last().last()));
    assert(crate::payload::spec_value_text(ra.last()) == crate::payload::spec_value_text(
        rb.last(),
    ));
}

proof fn lemma_task_rows_len_pair(t1: Seq<TaskRow>, t2: Seq<TaskRow>)
    ensures
        spec_task_rows(t1).len() == t1.len(),
        spec_task_rows(t2).len() == t2.len(),
{
    lemma_task_rows_len(t1);
    lemma_task_rows_len(t2);
}


/// Model-equal documents agree on which positions the data-view
/// plugin replaces, and on the queried text there.
proof fn lemma_dv_replaced_view(
    e1: Seq<crate::events::DocEvent>,
    e2: Seq<crate::events::DocEvent>,
    i: int,
)
    requires
        events_model(e1) == events_model(e2),
    ensures
        crate::plugins::spec_dv_replaced(e1, i) == crate::plugins::spec_dv_replaced(e2, i),
        crate::plugins::spec_dv_replaced(e1, i) ==> crate::plugins::spec_text_at(e1, i)
            == crate::plugins::spec_text_at(e2, i),
{
    assert(events_model(e1).len() == e1.len());
    assert(events_model(e2).len() == e2.len());
    if 0 <= i && i < e1.len() {
        assert(events_model(e1)[i] == crate::markdown::doc_event_model(e1[i]));
        assert(events_model(e2)[i] == crate::markdown::doc_event_model(e2[i]));
        if i >= 1 {
            assert(events_model(e1)[i - 1] == crate::markdown::doc_event_model(e1[i - 1]));
            assert(events_model(e2)[i - 1] == crate::markdown::doc_event_model(e2[i - 1]));
        }
    }
}

/// The tasks stage respects document and table views: view-equal
/// inputs reach view-equal tables and view-equal outcomes.
proof fn lemma_tasks_rel_view(
    pre1: Store,
    post1: Store,
    f1: File,
    r1: Result<File, Error>,
    pre2: Store,
    post2: Store,
    f2: File,
    r2: Result<File, Error>,
)
    requires
        spec_tasks_process_rel(pre1, post1, f1, r1),
        spec_tasks_process_rel(pre2, post2, f2, r2),
        tables_view_eq(pre1, pre2),
        file_view_eq(f1, f2),
    ensures
        tables_view_eq(post1, post2),
        r1 is Ok <==> r2 is Ok,
        r1 matches Ok(o1) ==> (r2 matches Ok(o2) && file_view_eq(o1, o2)),
{
    if pre1.tasks_created {
        lemma_without_source_view(pre1.tasks@, pre2.tasks@, f1.path@, f2.path@);
        match (f1.data, f2.data) {
            (FileType::Markdown(e1), FileType::Markdown(e2)) => {
                assert(events_model(e1@) == events_model(e2@));
                assert(events_model(e1@).len() == e1@.len());
                assert(events_model(e2@).len() == e2@.len());
                lemma_marker_tasks_view(e1@, e2@, f1.path, f2.path, e1@.len() as int);
                assert(tasks_view(post1.tasks@) =~= tasks_view(
                    spec_tasks_without_source(pre1.tasks@, f1.path@),
                ) + tasks_view(crate::plugins::spec_marker_tasks(e1@, f1.path)));
                assert(tasks_view(post2.tasks@) =~= tasks_view(
                    spec_tasks_without_source(pre2.tasks@, f2.path@),
                ) + tasks_view(crate::plugins::spec_marker_tasks(e2@, f2.path)));
            },
            (FileType::Unknown, FileType::Unknown) => {},
            _ => {
                assert(false);
            },
        }
    }
}

/// The data-view stage respects document and table views.
proof fn lemma_dataview_rel_view(
    pre1: Store,
    post1: Store,
    f1: File,
    r1: Result<File, Error>,
    pre2: Store,
    post2: Store,
    f2: File,
    r2: Result<File, Error>,
)
    requires
        spec_dataview_process_rel(pre1, post1, f1, r1),
        spec_dataview_process_rel(pre2, post2, f2, r2),
        tables_view_eq(pre1, pre2),
        file_view_eq(f1, f2),
    ensures
        tables_view_eq(post1, post2),
        r1 is Ok <==> r2 is Ok,
        r1 matches Ok(o1) ==> (r2 matches Ok(o2) && file_view_eq(o1, o2)),
{
    match (f1.data, f2.data) {
        (FileType::Markdown(e1), FileType::Markdown(e2)) => {
            assert(events_model(e1@) == events_model(e2@));
            assert(events_model(e1@).len() == e1@.len());
            assert(events_model(e2@).len() == e2@.len());
            assert forall|i: int| true implies crate::plugins::spec_dv_replaced(e1@, i)
                == crate::plugins::spec_dv_replaced(e2@, i) && (crate::plugins::spec_dv_replaced(
                e1@,
                i,
            ) ==> crate::plugins::spec_text_at(e1@, i) == crate::plugins::spec_text_at(
                e2@,
                i,
            )) by {
                lemma_dv_replaced_view(e1@, e2@, i);
            }
            assert((forall|i: int|
                #[trigger] crate::plugins::spec_dv_replaced(e1@, i)
                    ==> crate::plugins::spec_dv_pos_ok(
                    pre1,
                    crate::plugins::spec_text_at(e1@, i),
                )) <==> (forall|i: int|
                #[trigger] crate::plugins::spec_dv_replaced(e2@, i)
                    ==> crate::plugins::spec_dv_pos_ok(
                    pre2,
                    crate::plugins::spec_text_at(e2@, i),
                )));
            if r1 is Ok && r2 is Ok {
                let o1 = r1.unwrap();
                let o2 = r2.unwrap();
                match (o1.data, o2.data) {
                    (FileType::Markdown(out1), FileType::Markdown(out2)) => {
                        lemma_task_rows_text_view(pre1.tasks@, pre2.tasks@);
                        assert(events_model(out1@) =~= events_model(out2@)) by {
                            assert forall|i: int|
                                0 <= i < events_model(out1@).len() implies events_model(out1@)[i]
                                == events_model(out2@)[i] by {
                                lemma_dv_replaced_view(e1@, e2@, i);
                                if crate::plugins::spec_dv_replaced(e1@, i) {
                                    assert(out1@[i] matches crate::events::DocEvent::Text(x1));
                                    assert(out2@[i] matches crate::events::DocEvent::Text(x2));
                                } else {
                                    assert(out1@[i] == e1@[i]);
                                    assert(out2@[i] == e2@[i]);
                                    assert(events_model(e1@)[i] == events_model(e2@)[i]);
                                }
                            }
                        }
                    },
                    _ => {
                        assert(false);
                    },
                }
            }
        },
        (FileType::Unknown, FileType::Unknown) => {},
        _ => {
            assert(false);
        },
    }
}

/// Any plugin stage respects document and table views.
proof fn lemma_kind_rel_view(
    kind: PluginKind,
    pre1: Store,
    post1: Store,
    f1: File,
    r1: Result<File, Error>,
    pre2: Store,
    post2: Store,
    f2: File,
    r2: Result<File, Error>,
)
    requires
        spec_kind_process_rel(kind, pre1, post1, f1, r1),
        spec_kind_process_rel(kind, pre2, post2, f2, r2),
        tables_view_eq(pre1, pre2),
        file_view_eq(f1, f2),
    ensures
        tables_view_eq(post1, post2),
        r1 is Ok <==> r2 is Ok,
        r1 matches Ok(o1) ==> (r2 matches Ok(o2) && file_view_eq(o1, o2)),
{
    match kind {
        PluginKind::Tasks => {
            lemma_tasks_rel_view(pre1, post1, f1, r1, pre2, post2, f2, r2);
        },
        PluginKind::DataView => {
            lemma_dataview_rel_view(pre1, post1, f1, r1, pre2, post2, f2, r2);
        },
    }
}

/// LAW (pipeline determinism): folding view-equal documents through
/// the same plugin list from stores with view-equal tables reaches
/// view-equal tables, and both runs succeed or fail together; on
/// success the two output documents have the same model, and so
/// serialize to the same rendered text.
pub proof fn lemma_fold_deterministic(
    pre1: Store,
    post1: Store,
    pre2: Store,
    post2: Store,
    kinds: Seq<PluginKind>,
    f1: File,
    f2: File,
    r1: Result<File, Error>,
    r2: Result<File, Error>,
)
    requires
        spec_fold_rel(pre1, post1, kinds, f1, r1),
        spec_fold_rel(pre2, post2, kinds, f2, r2),
        tables_view_eq(pre1, pre2),
        file_view_eq(f1, f2),
    ensures
        tables_view_eq(post1, post2),
        r1 is Ok <==> r2 is Ok,
        r1 matches Ok(o1) ==> (r2 matches Ok(o2) && file_view_eq(o1, o2)),
    decreases kinds.len(),
{
    if kinds.len() == 0 {
    } else {
        let ok1 = exists|mid: Store, fmid: File|
            #[trigger] spec_kind_process_rel(kinds.first(), pre1, mid, f1, Ok(fmid))
                && spec_fold_rel(mid, post1, kinds.drop_first(), fmid, r1);
        let ok2 = exists|mid: Store, fmid: File|
            #[trigger] spec_kind_process_rel(kinds.first(), pre2, mid, f2, Ok(fmid))
                && spec_fold_rel(mid, post2, kinds.drop_first(), fmid, r2);
        if ok1 && ok2 {
            let (m1, g1) = choose|m1: Store, g1: File|
                #[trigger] spec_kind_process_rel(kinds.first(), pre1, m1, f1, Ok(g1))
                    && spec_fold_rel(m1, post1, kinds.drop_first(), g1, r1);
            let (m2, g2) = choose|m2: Store, g2: File|
                #[trigger] spec_kind_process_rel(kinds.first(), pre2, m2, f2, Ok(g2))
                    && spec_fold_rel(m2, post2, kinds.drop_first(), g2, r2);
            lemma_kind_rel_view(kinds.first(), pre1, m1, f1, Ok(g1), pre2, m2, f2, Ok(g2));
            lemma_fold_deterministic(
                m1,
                post1,
                m2,
                post2,
                kinds.drop_first(),
                g1,
                g2,
                r1,
                r2,
            );
        } else if ok1 && !ok2 {
            let (m1, g1) = choose|m1: Store, g1: File|
                #[trigger] spec_kind_process_rel(kinds.first(), pre1, m1, f1, Ok(g1))
                    && spec_fold_rel(m1, post1, kinds.drop_first(), g1, r1);
            let e2 = choose|e2: Error|
                spec_kind_process_rel(
                    kinds.first(),
                    pre2,
                    post2,
                    f2,
                    Err(#[trigger] crate::runtime::dummy_err(e2)),
                ) && r2 == Err::<File, Error>(e2);
            lemma_kind_rel_view(
                kinds.first(),
                pre1,
                m1,
                f1,
                Ok(g1),
                pre2,
                post2,
                f2,
                Err(crate::runtime::dummy_err(e2)),
            );
            assert(false);
        } else if !ok1 && ok2 {
            let (m2, g2) = choose|m2: Store, g2: File|
                #[trigger] spec_kind_process_rel(kinds.first(), pre2, m2, f2, Ok(g2))
                    && spec_fold_rel(m2, post2, kinds.drop_first(), g2, r2);
            let e1 = choose|e1: Error|
                spec_kind_process_rel(
                    kinds.first(),
                    pre1,
                    post1,
                    f1,
                    Err(#[trigger] crate::runtime::dummy_err(e1)),
                ) && r1 == Err::<File, Error>(e1);
            lemma_kind_rel_view(
                kinds.first(),
                pre1,
                post1,
                f1,
                Err(crate::runtime::dummy_err(e1)),
                pre2,
                m2,
                f2,
                Ok(g2),
            );
            assert(false);
        } else {
            let e1 = choose|e1: Error|
                spec_kind_process_rel(
                    kinds.first(),
                    pre1,
                    post1,
                    f1,
                    Err(#[trigger] crate::runtime::dummy_err(e1)),
                ) && r1 == Err::<File, Error>(e1);
            let e2 = choose|e2: Error|
                spec_kind_process_rel(
                    kinds.first(),
                    pre2,
                    post2,
                    f2,
                    Err(#[trigger] crate::runtime::dummy_err(e2)),
                ) && r2 == Err::<File, Error>(e2);
            lemma_kind_rel_view(
                kinds.first(),
                pre1,
                post1,
                f1,
                Err(crate::runtime::dummy_err(e1)),
                pre2,
                post2,
                f2,
                Err(crate::runtime::dummy_err(e2)),
            );
        }
    }
}


/// LAW (pipeline determinism): running the dispatch pipeline twice on
/// the same document and the same registered subscriptions — stores
/// whose tables agree, up to the characters they hold — yields the
/// same outcome: both runs succeed or fail together, the reached
/// tables agree, and the two output documents have the same model, so
/// they serialize to the same rendered text.
pub proof fn lemma_pipeline_deterministic(
    pre1: Store,
    post1: Store,
    pre2: Store,
    post2: Store,
    registry: Seq<RegisteredPlugin>,
    f1: File,
    f2: File,
    r1: Result<File, Error>,
    r2: Result<File, Error>,
)
    requires
        spec_render_rel(pre1, post1, registry, f1, r1),
        spec_render_rel(pre2, post2, registry, f2, r2),
        tables_view_eq(pre1, pre2),
        file_view_eq(f1, f2),
    ensures
        tables_view_eq(post1, post2),
        r1 is Ok <==> r2 is Ok,
        r1 matches Ok(o1) ==> (r2 matches Ok(o2) && file_view_eq(o1, o2)),
{
    let doc = spec_doc_of(f1);
    assert(spec_doc_of(f2) == doc);
    let rows = spec_subs_rows(pre1.subscriptions@, crate::plugins::spec_markdown_namespace());
    assert(spec_subs_rows(pre2.subscriptions@, crate::plugins::spec_markdown_namespace())
        == rows);
    if f1.data is Unknown {
    } else if !spec_rows_decode_ok(rows) {
    } else if spec_rows_err(rows, doc) {
    } else if spec_kinds_of(registry, spec_matched(rows, doc)) is None {
    } else {
        let kinds = spec_kinds_of(registry, spec_matched(rows, doc)).unwrap();
        let pre1b = choose|p: Store|
            {
                &&& crate::store::tables_unchanged(pre1, p)
                &&& crate::plugins::log_extends(pre1.applied.deep_view(), p.applied.deep_view())
                &&& #[trigger] spec_fold_rel(p, post1, kinds, f1, r1)
            };
        let pre2b = choose|p: Store|
            {
                &&& crate::store::tables_unchanged(pre2, p)
                &&& crate::plugins::log_extends(pre2.applied.deep_view(), p.applied.deep_view())
                &&& #[trigger] spec_fold_rel(p, post2, kinds, f2, r2)
            };
        assert(tables_view_eq(pre1b, pre2b)) by {
            assert(tasks_view(pre1b.tasks@) == tasks_view(pre1.tasks@));
            assert(tasks_view(pre2b.tasks@) == tasks_view(pre2.tasks@));
        }
        lemma_fold_deterministic(pre1b, post1, pre2b, post2, kinds, f1, f2, r1, r2);
    }
}

} // verus!



