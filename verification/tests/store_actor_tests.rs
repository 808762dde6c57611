use kasuku::actor::{Mailbox, QueryMsg, StorageActor};
use kasuku::store::Store;
use kasuku::context::{Context, ContextState, Database, Subscription};
use kasuku::errors::Error;
use kasuku::payload::{Payload, Value};
use kasuku::store::CoreStatement;

#[test]
fn mailbox_backpressure_suspends_and_never_drops() {
    let mut mb = Mailbox::bounded(2);
    assert_eq!(mb.len(), 0);
    let m1 = QueryMsg::new(CoreStatement::Raw("select 1".to_string()));
    let m2 = QueryMsg::new(CoreStatement::Raw("select 2".to_string()));
    let m3 = QueryMsg::new(CoreStatement::Raw("select 3".to_string()));
    assert!(mb.try_send(m1).is_none());
    assert!(mb.try_send(m2).is_none());
    assert!(mb.is_full());
    // A send against the saturated mailbox does not enqueue, does not
    // error, and hands the message back for the sender to wait with.
    let back = mb.try_send(m3);
    assert!(back.is_some());
    assert_eq!(mb.len(), 2);
    // Once capacity frees up the held-back message goes through.
    let served = mb.pop_next().unwrap();
    assert_eq!(served.query.0, "select 1");
    assert!(mb.try_send(back.unwrap()).is_none());
    assert_eq!(mb.len(), 2);
}

#[test]
fn mailbox_serves_in_enqueue_order() {
    let mut mb = Mailbox::bounded(10);
    for i in 0..3 {
        let sql = format!("select {i}");
        assert!(mb.try_send(QueryMsg::new(CoreStatement::Raw(sql))).is_none());
    }
    assert_eq!(mb.pop_next().unwrap().query.0, "select 0");
    assert_eq!(mb.pop_next().unwrap().query.0, "select 1");
    assert_eq!(mb.pop_next().unwrap().query.0, "select 2");
    assert!(mb.pop_next().is_none());
}

#[test]
fn read_only_gate_rejects_mutations_before_the_actor() {
    let mut ctx = Context::acquire();
    let log_before = ctx.actor.store.applied.len();
    let r = ctx.query("INSERT INTO tasks(title) VALUES ('x');");
    assert!(matches!(r, Err(Error::DatabaseError(_))));
    // The statement never reached the storage actor.
    assert_eq!(ctx.actor.store.applied.len(), log_before);
}

#[test]
fn read_only_gate_rejects_mixed_batches() {
    let mut ctx = Context::acquire();
    let r = ctx.query("SELECT 1; DELETE FROM tasks;");
    assert!(matches!(r, Err(Error::DatabaseError(_))));
}

#[test]
fn read_only_gate_rejects_malformed_sql() {
    let mut ctx = Context::acquire();
    let r = ctx.query("not sql at all ;;;");
    assert!(matches!(r, Err(Error::DatabaseError(_))));
}

#[test]
fn read_only_gate_passes_pure_queries() {
    let mut ctx = Context::acquire();
    let log_before = ctx.actor.store.applied.len();
    let r = ctx.query("SELECT * FROM subscriptions;");
    assert!(r.is_ok());
    // The query reached the actor: its text is in the applied log.
    assert_eq!(ctx.actor.store.applied.len(), log_before + 1);
    assert_eq!(ctx.actor.store.applied.last().unwrap(), "SELECT * FROM subscriptions;");
}

#[test]
fn actor_tolerates_malformed_sql_and_keeps_serving() {
    let mut ctx = Context::acquire();
    let log_before = ctx.actor.store.applied.len();
    // A malformed statement reaches the actor, is answered with an
    // error, and leaves every table unchanged.
    let r = ctx.execute("not sql at all ;;;");
    assert!(matches!(r, Err(Error::DatabaseError(_))));
    assert_eq!(ctx.actor.store.applied.len(), log_before + 1);
    // The actor continues serving the next message normally.
    let r2 = ctx.query("SELECT * FROM subscriptions;");
    assert!(r2.is_ok());
}

#[test]
fn execute_reaches_the_actor_unexamined() {
    let mut ctx = Context::acquire();
    let log_before = ctx.actor.store.applied.len();
    let r = ctx.execute("DROP TABLE something;");
    assert!(r.is_ok());
    assert_eq!(ctx.actor.store.applied.len(), log_before + 1);
    assert_eq!(ctx.actor.store.applied.last().unwrap(), "DROP TABLE something;");
}

#[test]
fn raw_batches_are_acknowledged_per_statement() {
    let mut ctx = Context::acquire();
    let r = ctx.query("SELECT 1; SELECT 2; SELECT 3;").unwrap();
    assert_eq!(r.len(), 3);
    for p in &r {
        match p {
            Payload::Select { labels, rows } => {
                assert!(labels.is_empty());
                assert!(rows.is_empty());
            },
            other => panic!("expected an empty select acknowledgement, got {other:?}"),
        }
    }
}

#[test]
fn send_waiting_serves_the_oldest_and_enqueues_once() {
    let mut actor = StorageActor::start(Store::boot(), 2);
    assert!(actor.mailbox.try_send(QueryMsg::new(CoreStatement::CreateTasksTable)).is_none());
    assert!(actor
        .mailbox
        .try_send(QueryMsg::new(CoreStatement::Raw("SELECT 1".to_string())))
        .is_none());
    assert!(actor.mailbox.is_full());
    // The waiting send serves exactly one oldest message — its effect
    // lands in the store — then enqueues the new message once.
    actor.send_waiting(QueryMsg::new(CoreStatement::SelectTasks));
    assert_eq!(actor.mailbox.len(), 2);
    assert!(actor.store.tasks_created);
    assert_eq!(actor.mailbox.queue[0].query.0, "SELECT 1");
    assert_eq!(actor.mailbox.queue[1].query.0, "Select * from tasks");
}

#[test]
fn mutation_is_visible_to_a_later_read() {
    let mut ctx = Context::acquire();
    ctx.run_statement(CoreStatement::CreateTasksTable).unwrap();
    let row = kasuku::store::TaskRow {
        title: "buy milk".to_string(),
        completed: false,
        source: "inbox.md".to_string(),
    };
    assert_eq!(ctx.run_statement(CoreStatement::InsertTask(row)), Ok(Payload::Insert(1)));
    let r = ctx.query("select * from tasks").unwrap();
    match &r[0] {
        Payload::Select { labels, rows } => {
            assert_eq!(labels, &vec!["title".to_string(), "completed".to_string(), "source".to_string()]);
            assert_eq!(rows.len(), 1);
            assert_eq!(
                rows[0],
                vec![
                    Value::Str("buy milk".to_string()),
                    Value::Bool(false),
                    Value::Str("inbox.md".to_string()),
                ]
            );
        },
        other => panic!("expected a select result, got {other:?}"),
    }
}

#[test]
fn subscription_round_trip_returns_exactly_one_row() {
    let mut ctx = Context::acquire();
    ctx.set_plugin("tasks".to_string());
    let sub = Subscription {
        event: "markdown::MarkdownEvent".to_string(),
        event_type: "types::IdentityPlugin".to_string(),
        data: "TaskList".to_string(),
    };
    let reply = ctx.subscribe(sub).unwrap();
    assert_eq!(reply, vec![Payload::Insert(1)]);
    let listing = ctx
        .run_statement(CoreStatement::SelectSubscriptionsByEvent(
            "markdown::MarkdownEvent".to_string(),
        ))
        .unwrap();
    match listing {
        Payload::Select { labels, rows } => {
            assert_eq!(
                labels,
                vec![
                    "plugin".to_string(),
                    "event".to_string(),
                    "event_type".to_string(),
                    "data".to_string(),
                ]
            );
            assert_eq!(rows.len(), 1);
            assert_eq!(
                rows[0],
                vec![
                    Value::Str("tasks".to_string()),
                    Value::Str("markdown::MarkdownEvent".to_string()),
                    Value::Str("types::IdentityPlugin".to_string()),
                    Value::Str("TaskList".to_string()),
                ]
            );
        },
        other => panic!("expected a select result, got {other:?}"),
    }
}

#[test]
fn delete_by_source_removes_only_that_source() {
    let mut ctx = Context::acquire();
    ctx.run_statement(CoreStatement::CreateTasksTable).unwrap();
    for (title, source) in [("a", "one.md"), ("b", "two.md"), ("c", "one.md")] {
        let row = kasuku::store::TaskRow {
            title: title.to_string(),
            completed: false,
            source: source.to_string(),
        };
        ctx.run_statement(CoreStatement::InsertTask(row)).unwrap();
    }
    let r = ctx
        .run_statement(CoreStatement::DeleteTasksBySource("one.md".to_string()))
        .unwrap();
    assert_eq!(r, Payload::Delete(2));
    assert_eq!(ctx.actor.store.tasks.len(), 1);
    assert_eq!(ctx.actor.store.tasks[0].title, "b");
}

#[test]
fn task_statements_without_a_table_fail() {
    let mut ctx = Context::acquire();
    let row = kasuku::store::TaskRow {
        title: "x".to_string(),
        completed: false,
        source: "s".to_string(),
    };
    assert!(matches!(
        ctx.run_statement(CoreStatement::InsertTask(row)),
        Err(Error::DatabaseError(_))
    ));
    assert!(matches!(
        ctx.run_statement(CoreStatement::SelectTasks),
        Err(Error::DatabaseError(_))
    ));
}

#[test]
fn duplicate_vault_names_are_refused() {
    let mut ctx = Context::acquire();
    let v1 = kasuku::store::VaultRow { name: "notes".to_string(), mount: "/a".to_string() };
    let v2 = kasuku::store::VaultRow { name: "notes".to_string(), mount: "/b".to_string() };
    assert_eq!(ctx.run_statement(CoreStatement::InsertVault(v1)), Ok(Payload::Insert(1)));
    assert!(matches!(
        ctx.run_statement(CoreStatement::InsertVault(v2)),
        Err(Error::DatabaseError(_))
    ));
    assert_eq!(ctx.actor.store.vaults.len(), 1);
    assert_eq!(ctx.actor.store.vaults[0].mount, "/a");
}

#[test]
fn database_capability_routes_by_mode() {
    let mut ctx = Context::acquire();
    let r = Database::query(
        &mut ctx.actor,
        "DELETE FROM tasks;".to_string(),
        ContextState::Ref,
    );
    assert!(matches!(r, Err(Error::DatabaseError(_))));
    let r2 = Database::query(
        &mut ctx.actor,
        "DELETE FROM tasks;".to_string(),
        ContextState::RefMut,
    );
    assert!(r2.is_ok());
}

#[test]
fn capability_stubs_pass_through() {
    let ctx = Context::acquire();
    assert_eq!(ctx.fetch("https://example.org"), "https://example.org");
    assert_eq!(kasuku::context::Fetcher::fetch("u".to_string()), "u");
    assert_eq!(kasuku::context::Emitter::emit("e".to_string()), "e");
}

#[test]
fn debug_appends_to_the_host_log() {
    let mut ctx = Context::acquire();
    ctx.debug("first");
    ctx.debug("second");
    assert_eq!(ctx.debug_log, vec!["first".to_string(), "second".to_string()]);
}

#[test]
fn register_view_records_the_view() {
    let mut ctx = Context::acquire();
    ctx.register_view(kasuku::common::ViewType::SideBar);
    assert_eq!(ctx.views, vec![kasuku::common::ViewType::SideBar]);
}

#[test]
fn error_kinds_have_stable_names() {
    assert_eq!(Error::Serialization("x".to_string()).kind_name(), "Serialization");
    assert_eq!(Error::InvalidRender.kind_name(), "InvalidRender");
    assert_eq!(Error::SqlParser.kind_name(), "SqlParser");
    assert_eq!(Error::FileCodec("x".to_string()).kind_name(), "FileCodec");
    assert_eq!(Error::Regex("x".to_string()).kind_name(), "Regex");
    assert_eq!(Error::PluginError("x".to_string()).kind_name(), "PluginError");
    assert_eq!(Error::DatabaseError("x".to_string()).kind_name(), "DatabaseError");
}
