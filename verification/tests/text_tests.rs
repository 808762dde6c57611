use kasuku::decimal::{i128_to_dec, u128_to_dec, usize_to_dec};
use kasuku::store::{CoreStatement, SubscriptionRow};
use kasuku::distribution::{join_comma, split_comma, PluginAnnotation};
use kasuku::payload::{payload_text, value_text, Payload, Value};
use kasuku::plugins::{tasks_from_payload, Task};

#[test]
fn decimal_rendering_is_exact() {
    assert_eq!(u128_to_dec(0), "0");
    assert_eq!(u128_to_dec(7), "7");
    assert_eq!(u128_to_dec(12345), "12345");
    assert_eq!(u128_to_dec(340282366920938463463374607431768211455), "340282366920938463463374607431768211455");
    assert_eq!(usize_to_dec(100), "100");
    assert_eq!(i128_to_dec(-42), "-42");
    assert_eq!(i128_to_dec(0), "0");
    assert_eq!(i128_to_dec(i128::MIN), "-170141183460469231731687303715884105728");
}

#[test]
fn value_rendering_is_exact() {
    assert_eq!(value_text(&Value::Bool(true)), "true");
    assert_eq!(value_text(&Value::I32(-5)), "-5");
    assert_eq!(value_text(&Value::U64(99)), "99");
    assert_eq!(value_text(&Value::Str("hi".to_string())), "hi");
    assert_eq!(value_text(&Value::Null), "null");
    assert_eq!(value_text(&Value::Inet("127.0.0.1".to_string())), "127.0.0.1");
}

#[test]
fn payload_rendering_joins_rows() {
    let p = Payload::Select {
        labels: vec!["a".to_string(), "b".to_string()],
        rows: vec![
            vec![Value::Str("x".to_string()), Value::Bool(true)],
            vec![Value::Str("y".to_string()), Value::Bool(false)],
        ],
    };
    assert_eq!(payload_text(&p), "x, true\ny, false");
    assert_eq!(payload_text(&Payload::Insert(3)), "Insert(3)");
    assert_eq!(payload_text(&Payload::Delete(2)), "Delete(2)");
    assert_eq!(payload_text(&Payload::Commit), "[ok]");
}

#[test]
fn tasks_read_back_from_a_labeled_listing() {
    let p = Payload::Select {
        labels: vec!["title".to_string(), "completed".to_string(), "source".to_string()],
        rows: vec![vec![
            Value::Str("t".to_string()),
            Value::Bool(true),
            Value::Str("s.md".to_string()),
        ]],
    };
    let tasks = tasks_from_payload(&p).unwrap();
    assert_eq!(tasks.len(), 1);
    assert_eq!(tasks[0].title, "t");
    assert!(tasks[0].completed);
    assert_eq!(tasks[0].source, Some("s.md".to_string()));
}

#[test]
fn tasks_read_back_respects_label_positions() {
    let p = Payload::Select {
        labels: vec!["source".to_string(), "title".to_string(), "completed".to_string()],
        rows: vec![vec![
            Value::Str("s.md".to_string()),
            Value::Str("t".to_string()),
            Value::Bool(false),
        ]],
    };
    let tasks = tasks_from_payload(&p).unwrap();
    assert_eq!(tasks[0].title, "t");
    assert_eq!(tasks[0].source, Some("s.md".to_string()));
}

#[test]
fn tasks_read_back_rejects_missing_columns() {
    let p = Payload::Select {
        labels: vec!["title".to_string()],
        rows: vec![vec![Value::Str("t".to_string())]],
    };
    assert!(tasks_from_payload(&p).is_err());
    assert!(tasks_from_payload(&Payload::Commit).is_err());
}

#[test]
fn task_new_starts_open_and_unsourced() {
    let t = Task::new("call home".to_string());
    assert_eq!(t.title, "call home");
    assert!(!t.completed);
    assert!(t.source.is_none());
}

#[test]
fn comma_join_and_split_round_trip() {
    let deps = vec!["alpha".to_string(), "beta".to_string(), "gamma".to_string()];
    let joined = join_comma(&deps);
    assert_eq!(joined, "alpha,beta,gamma");
    assert_eq!(split_comma(&joined), deps);
    assert_eq!(split_comma(""), vec!["".to_string()]);
    assert_eq!(split_comma("a,,b"), vec!["a".to_string(), "".to_string(), "b".to_string()]);
}

#[test]
fn annotations_round_trip() {
    let p = PluginAnnotation {
        name: "tasks".to_string(),
        identifier: "io.kasuku.tasks".to_string(),
        icon: "icon.svg".to_string(),
        description: "tracks tasks".to_string(),
        version: "1.2.3".to_string(),
        readme: "README.md".to_string(),
        dependencies: vec!["core".to_string(), "markdown".to_string()],
        vendor: "kasuku".to_string(),
        licenses: Some("MIT".to_string()),
        source: Some("https://example.org/tasks".to_string()),
        wasm: vec![1, 2, 3],
    };
    let map = p.to_annotations();
    let q = PluginAnnotation::from_annotations(&map).unwrap();
    assert_eq!(q.name, p.name);
    assert_eq!(q.identifier, p.identifier);
    assert_eq!(q.icon, p.icon);
    assert_eq!(q.description, p.description);
    assert_eq!(q.version, p.version);
    assert_eq!(q.readme, p.readme);
    assert_eq!(q.dependencies, p.dependencies);
    assert_eq!(q.vendor, p.vendor);
    assert_eq!(q.licenses, p.licenses);
    assert_eq!(q.source, p.source);
    // The module bytes do not travel in the annotation map.
    assert!(q.wasm.is_empty());
}

#[test]
fn annotations_without_identifier_are_refused() {
    let map = vec![("org.opencontainers.image.title".to_string(), "x".to_string())];
    assert!(PluginAnnotation::from_annotations(&map).is_err());
}

#[test]
fn emit_wraps_the_event_for_its_plugin() {
    let ev = kasuku::common::emit("tasks".to_string(), "TaskEvent".to_string(), vec![1, 2]);
    match ev {
        kasuku::common::CompactEvent::Plugin { plugin, data } => {
            assert_eq!(plugin, "tasks");
            assert_eq!(data.kind_name, "TaskEvent");
            assert_eq!(data.data, vec![1, 2]);
        },
        other => panic!("expected a plugin event, got {other:?}"),
    }
}

#[test]
fn config_validation_accepts_everything() {
    let config = kasuku::config::Config {
        vaults: Vec::new(),
        events: Vec::new(),
        internals: kasuku::config::Internals { database_path: "db".to_string() },
        plugins: Vec::new(),
    };
    assert!(config.validate().is_ok());
}

#[test]
fn plugin_config_entry_defaults() {
    let pc = kasuku::config::plugin_config_from_entry("tasks".to_string(), None, "uri".to_string());
    assert_eq!(pc.name, "tasks");
    assert!(!pc.headless);
    assert_eq!(pc.uri, "uri");
    assert!(pc.remote.is_none());
    let pc2 = kasuku::config::plugin_config_from_entry("t".to_string(), Some(true), "u".to_string());
    assert!(pc2.headless);
}

#[test]
fn sql_parse_accepts_queries_and_refuses_noise() {
    let ok = kasuku::sql::parse("SELECT 1;");
    assert!(ok.is_ok());
    assert!(kasuku::sql::all_statements_are_queries(&ok.unwrap()));
    let mixed = kasuku::sql::parse("SELECT 1; DROP TABLE t;").unwrap();
    assert!(!kasuku::sql::all_statements_are_queries(&mixed));
    assert!(matches!(
        kasuku::sql::parse("@@@"),
        Err(kasuku::errors::Error::SqlParser)
    ));
    assert!(kasuku::sql::check_read_only("SELECT * FROM tasks;").is_ok());
    assert!(kasuku::sql::check_read_only("UPDATE tasks SET completed = true;").is_err());
}

#[test]
fn core_statement_sql_text_is_exact() {
    let stmt = CoreStatement::InsertSubscription(SubscriptionRow {
        plugin: "p".to_string(),
        event: "e".to_string(),
        event_type: "t".to_string(),
        data: "d".to_string(),
    });
    assert_eq!(
        stmt.to_sql(),
        "INSERT INTO subscriptions(plugin, event, event_type, data) VALUES('p','e','t','d');"
    );
    let sel = CoreStatement::SelectEntries {
        vault: "notes".to_string(),
        offset: 2,
        limit: 10,
    };
    assert_eq!(
        sel.to_sql(),
        "Select path from entries WHERE vault = 'notes' OFFSET 2 LIMIT 10;"
    );
}
