use kasuku::common::Event;
use kasuku::config::{Config, Internals, PluginConfig, VaultConfig};
use kasuku::context::Subscription;
use kasuku::errors::Error;
use kasuku::events::{DocCodeBlockKind, DocEvent, DocTag, DocTagEnd};
use kasuku::markdown::{File, FileType};
use kasuku::payload::{Payload, Value};
use kasuku::runtime::{Filtering, KasukuRuntime};

fn task_doc(path: &str, title: &str, done: bool) -> File {
    File {
        path: path.to_string(),
        data: FileType::Markdown(vec![
            DocEvent::Start(DocTag::List(None)),
            DocEvent::Start(DocTag::Item),
            DocEvent::TaskListMarker(done),
            DocEvent::Text(title.to_string()),
            DocEvent::End(DocTagEnd::Item),
            DocEvent::End(DocTagEnd::List(false)),
        ]),
    }
}

fn text_doc(path: &str, text: &str) -> File {
    File {
        path: path.to_string(),
        data: FileType::Markdown(vec![
            DocEvent::Start(DocTag::Paragraph),
            DocEvent::Text(text.to_string()),
            DocEvent::End(DocTagEnd::Paragraph),
        ]),
    }
}

fn config_with(plugins: &[&str]) -> Config {
    Config {
        vaults: vec![(
            "notes".to_string(),
            VaultConfig { mount: "/vault".to_string(), plugins: Vec::new() },
        )],
        events: Vec::new(),
        internals: Internals { database_path: "/tmp-db".to_string() },
        plugins: plugins
            .iter()
            .map(|name| PluginConfig {
                name: name.to_string(),
                headless: false,
                uri: format!("registry.example/{name}"),
                remote: None,
            })
            .collect(),
    }
}

#[test]
fn boot_loads_plugins_and_vaults() {
    let rt = KasukuRuntime::new(config_with(&["tasks", "dataview"])).unwrap();
    assert_eq!(rt.registry.len(), 2);
    assert_eq!(rt.registry[0].plugin.name, "tasks");
    assert_eq!(rt.registry[1].plugin.name, "dataview");
    assert!(rt.context.actor.store.tasks_created);
    // tasks registered two subscriptions, dataview one.
    assert_eq!(rt.context.actor.store.subscriptions.len(), 3);
    assert_eq!(rt.context.actor.store.vaults.len(), 1);
    assert_eq!(rt.context.actor.store.vaults[0].name, "notes");
}

#[test]
fn boot_refuses_an_unknown_plugin() {
    let r = KasukuRuntime::new(config_with(&["tasks", "mystery"]));
    assert!(matches!(r, Err(Error::PluginError(_))));
}

#[test]
fn tasks_scenario_marker_becomes_a_stored_task() {
    let mut rt = KasukuRuntime::new(config_with(&["tasks"])).unwrap();
    let doc = task_doc("inbox.md", "buy milk", false);
    let out = rt.dispatch_document(doc).unwrap();
    // The tasks plugin hands the document through unchanged.
    assert_eq!(out, task_doc("inbox.md", "buy milk", false));
    // The plugin's side effect is observable through a read-mode query.
    let reply = rt.context.query("select * from tasks").unwrap();
    match &reply[0] {
        Payload::Select { labels: _, rows } => {
            assert_eq!(rows.len(), 1);
            assert_eq!(
                rows[0],
                vec![
                    Value::Str("buy milk".to_string()),
                    Value::Bool(false),
                    Value::Str("inbox.md".to_string()),
                ]
            );
        },
        other => panic!("expected a select result, got {other:?}"),
    }
    // The pipeline invoked the tasks plugin exactly once: one delete,
    // one insert.
    let deletes = rt
        .context
        .actor
        .store
        .applied
        .iter()
        .filter(|s| s.starts_with("DELETE FROM tasks"))
        .count();
    assert_eq!(deletes, 1);
}

#[test]
fn deduplication_runs_a_plugin_once_for_two_matching_subscriptions() {
    let mut rt = KasukuRuntime::new(config_with(&["tasks"])).unwrap();
    // A second subscription of the same plugin that also matches the
    // document.
    rt.context.set_plugin("tasks".to_string());
    rt.context
        .subscribe(Subscription {
            event: "markdown::MarkdownEvent".to_string(),
            event_type: "types::IdentityPlugin".to_string(),
            data: "Text:milk".to_string(),
        })
        .unwrap();
    let _ = rt.dispatch_document(task_doc("inbox.md", "buy milk", false)).unwrap();
    let deletes = rt
        .context
        .actor
        .store
        .applied
        .iter()
        .filter(|s| s.starts_with("DELETE FROM tasks"))
        .count();
    assert_eq!(deletes, 1);
}

#[test]
fn pipeline_is_deterministic() {
    let mut rt1 = KasukuRuntime::new(config_with(&["tasks", "dataview"])).unwrap();
    let mut rt2 = KasukuRuntime::new(config_with(&["tasks", "dataview"])).unwrap();
    let out1 = rt1.dispatch_document(task_doc("a.md", "water plants", true)).unwrap();
    let out2 = rt2.dispatch_document(task_doc("a.md", "water plants", true)).unwrap();
    assert_eq!(out1, out2);
    assert_eq!(rt1.context.actor.store.tasks, rt2.context.actor.store.tasks);
    assert_eq!(rt1.context.actor.store.applied, rt2.context.actor.store.applied);
}

#[test]
fn dataview_block_renders_the_task_table() {
    let mut rt = KasukuRuntime::new(config_with(&["tasks", "dataview"])).unwrap();
    // Subscribe the data-view plugin with a pattern its blocks match.
    rt.context.set_plugin("dataview".to_string());
    rt.context
        .subscribe(Subscription {
            event: "markdown::MarkdownEvent".to_string(),
            event_type: "types::IdentityPlugin".to_string(),
            data: "Tag:CodeBlock:Fenced:dataview".to_string(),
        })
        .unwrap();
    // Store one task first.
    let _ = rt.dispatch_document(task_doc("todo.md", "buy milk", false)).unwrap();
    let view = File {
        path: "view.md".to_string(),
        data: FileType::Markdown(vec![
            DocEvent::Start(DocTag::CodeBlock(DocCodeBlockKind::Fenced("dataview".to_string()))),
            DocEvent::Text("select * from tasks\n".to_string()),
            DocEvent::End(DocTagEnd::CodeBlock),
        ]),
    };
    let out = rt.dispatch_document(view).unwrap();
    match out.data {
        FileType::Markdown(events) => {
            assert_eq!(events[1], DocEvent::Text("buy milk, false, todo.md".to_string()));
        },
        other => panic!("expected a markdown document, got {other:?}"),
    }
}

#[test]
fn dataview_aborts_on_a_mutating_query() {
    let mut rt = KasukuRuntime::new(config_with(&["dataview"])).unwrap();
    rt.context.set_plugin("dataview".to_string());
    rt.context
        .subscribe(Subscription {
            event: "markdown::MarkdownEvent".to_string(),
            event_type: "types::IdentityPlugin".to_string(),
            data: "Tag:CodeBlock:Fenced:dataview".to_string(),
        })
        .unwrap();
    let view = File {
        path: "view.md".to_string(),
        data: FileType::Markdown(vec![
            DocEvent::Start(DocTag::CodeBlock(DocCodeBlockKind::Fenced("dataview".to_string()))),
            DocEvent::Text("DROP TABLE tasks".to_string()),
            DocEvent::End(DocTagEnd::CodeBlock),
        ]),
    };
    let r = rt.dispatch_document(view);
    assert!(matches!(r, Err(Error::DatabaseError(_))));
}

#[test]
fn malformed_subscription_payload_aborts_the_pipeline() {
    let mut rt = KasukuRuntime::new(config_with(&[])).unwrap();
    rt.context.set_plugin("broken".to_string());
    rt.context
        .subscribe(Subscription {
            event: "markdown::MarkdownEvent".to_string(),
            event_type: "types::IdentityPlugin".to_string(),
            data: "garbage payload".to_string(),
        })
        .unwrap();
    let r = rt.dispatch_document(text_doc("a.md", "hello"));
    assert!(matches!(r, Err(Error::Serialization(_))));
}

#[test]
fn invalid_matcher_pattern_aborts_the_pipeline() {
    let mut rt = KasukuRuntime::new(config_with(&["tasks"])).unwrap();
    rt.context.set_plugin("tasks".to_string());
    rt.context
        .subscribe(Subscription {
            event: "markdown::MarkdownEvent".to_string(),
            event_type: "types::IdentityPlugin".to_string(),
            data: "Text:(unclosed".to_string(),
        })
        .unwrap();
    let r = rt.dispatch_document(text_doc("a.md", "some text"));
    assert!(matches!(r, Err(Error::Regex(_))));
}

#[test]
fn matched_plugin_missing_from_registry_is_a_routing_error() {
    let mut rt = KasukuRuntime::new(config_with(&[])).unwrap();
    rt.context.set_plugin("ghost".to_string());
    rt.context
        .subscribe(Subscription {
            event: "markdown::MarkdownEvent".to_string(),
            event_type: "types::IdentityPlugin".to_string(),
            data: "Text:.*".to_string(),
        })
        .unwrap();
    let r = rt.dispatch_document(text_doc("a.md", "some text"));
    assert!(matches!(r, Err(Error::PluginError(_))));
}

#[test]
fn render_without_override_is_invalid_render() {
    let mut rt = KasukuRuntime::new(config_with(&["tasks", "dataview"])).unwrap();
    let view = Event { data: Vec::new(), namespace: "text".to_string() };
    // The data-view plugin leaves `render` at its default.
    let r = rt.preview(&"dataview".to_string(), view);
    assert!(matches!(r, Err(Error::InvalidRender)));
}

#[test]
fn tasks_render_lists_the_stored_tasks() {
    let mut rt = KasukuRuntime::new(config_with(&["tasks"])).unwrap();
    let view = Event { data: Vec::new(), namespace: "text".to_string() };
    let empty = rt.preview(&"tasks".to_string(), view).unwrap();
    assert_eq!(empty.0, "<p>0 tasks found</p><ul></ul>");
    let _ = rt.dispatch_document(task_doc("inbox.md", "water plants", true)).unwrap();
    let view2 = Event { data: Vec::new(), namespace: "text".to_string() };
    let rendered = rt.preview(&"tasks".to_string(), view2).unwrap();
    assert_eq!(
        rendered.0,
        "<p>1 tasks found</p><ul><li data-completed=\"true\" data-source=\"inbox.md\">water plants</li></ul>"
    );
}

#[test]
fn unknown_plugin_preview_is_a_routing_error() {
    let mut rt = KasukuRuntime::new(config_with(&["tasks"])).unwrap();
    let view = Event { data: Vec::new(), namespace: "text".to_string() };
    let r = rt.preview(&"mystery".to_string(), view);
    assert!(matches!(r, Err(Error::PluginError(_))));
}

#[test]
fn ingest_records_each_path_once() {
    let mut rt = KasukuRuntime::new(config_with(&[])).unwrap();
    rt.ingest_entry("/vault/a.md".to_string(), "notes".to_string());
    rt.ingest_entry("/vault/b.md".to_string(), "notes".to_string());
    rt.ingest_entry("/vault/a.md".to_string(), "notes".to_string());
    assert_eq!(rt.context.actor.store.entries.len(), 2);
}

#[test]
fn ingest_filter_walks_markdown_only() {
    assert_eq!(kasuku::runtime::ingest_filter(".git"), Filtering::IgnoreDir);
    assert_eq!(kasuku::runtime::ingest_filter("notes.md"), Filtering::Continue);
    assert_eq!(kasuku::runtime::ingest_filter("image.png"), Filtering::Ignore);
}

#[test]
fn vault_listing_round_trips() {
    let mut rt = KasukuRuntime::new(config_with(&[])).unwrap();
    let vaults = rt.vaults();
    assert_eq!(vaults.len(), 1);
    assert_eq!(vaults[0].name, "notes");
    assert_eq!(vaults[0].mount, "/vault");
}

#[test]
fn unknown_documents_are_a_codec_error() {
    let mut rt = KasukuRuntime::new(config_with(&["tasks"])).unwrap();
    let r = rt.dispatch_document(File { path: "x.bin".to_string(), data: FileType::Unknown });
    assert!(matches!(r, Err(Error::FileCodec(_))));
}
