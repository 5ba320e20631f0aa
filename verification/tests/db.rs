use csm::db::{self, add_column_statement, column_name, database_url, ensure_session_columns};
use csm::failure::Failure;
use csm::flow::{Effect, Event, Flow};
use csm::names::NameSet;
use sea_orm::{ConnectionTrait, Database, DatabaseConnection, Statement};

async fn session_columns(db: &DatabaseConnection) -> NameSet {
    let rows = db
        .query_all(Statement::from_string(
            db.get_database_backend(),
            "PRAGMA table_info('sessions')".to_string(),
        ))
        .await
        .unwrap();
    let mut columns = NameSet::new();
    for row in rows {
        columns.insert(row.try_get::<String>("", "name").unwrap());
    }
    columns
}

async fn migrate(db: &DatabaseConnection) -> Event {
    let (mut flow, mut effect) = ensure_session_columns();
    loop {
        let event = match effect {
            Effect::SessionColumns => Event::Columns(session_columns(db).await),
            Effect::AddColumn { column } => {
                let statement = Statement::from_string(
                    db.get_database_backend(),
                    add_column_statement(column),
                );
                match db.execute(statement).await {
                    Ok(_) => Event::Done,
                    Err(_) => Event::Failed(Failure::UnexpectedReply),
                }
            }
            Effect::Finish(outcome) => return outcome,
            other => panic!("unexpected effect: {other:?}"),
        };
        let (next, wanted) = flow.next(event);
        flow = next;
        effect = wanted;
    }
}

#[test]
fn migrates_legacy_sessions_table() {
    let runtime = tokio::runtime::Runtime::new().unwrap();
    runtime.block_on(async {
        let mut options = sea_orm::ConnectOptions::new("sqlite::memory:".to_string());
        options.max_connections(1);
        let db = Database::connect(options).await.unwrap();
        let backend = db.get_database_backend();
        db.execute(Statement::from_string(
            backend,
            "CREATE TABLE sessions (
                name TEXT PRIMARY KEY NOT NULL,
                branch TEXT NOT NULL,
                copilot_uuid TEXT NOT NULL,
                source_repo TEXT NOT NULL,
                worktree_path TEXT NOT NULL,
                status TEXT NOT NULL,
                last_used_at TEXT NOT NULL
            );
            INSERT INTO sessions VALUES (
                'legacy', 'main', '11111111-1111-1111-1111-111111111111',
                '/tmp/repo', '/tmp/worktree', 'active', '2026-01-01 00:00:00'
            );"
            .to_string(),
        ))
        .await
        .unwrap();

        assert!(matches!(migrate(&db).await, Event::Done));

        let columns = session_columns(&db).await;
        assert!(columns.contains("backend"));
        assert!(columns.contains("codespace_name"));
        assert!(columns.contains("remote_workdir"));
        assert!(columns.contains("github_login"));
        assert!(columns.contains("codespace_state_updated_at"));

        let row = db
            .query_one(Statement::from_string(
                backend,
                "SELECT backend, codespace_name, remote_workdir, github_login
                 FROM sessions WHERE name = 'legacy'"
                    .to_string(),
            ))
            .await
            .unwrap()
            .unwrap();
        assert_eq!(row.try_get::<String>("", "backend").unwrap(), "local");
        assert_eq!(row.try_get::<Option<String>>("", "codespace_name").unwrap(), None);
        assert_eq!(row.try_get::<Option<String>>("", "remote_workdir").unwrap(), None);
        assert_eq!(row.try_get::<Option<String>>("", "github_login").unwrap(), None);

        assert!(matches!(migrate(&db).await, Event::Done));
    });
}

#[test]
fn columns_are_added_by_name_and_type() {
    assert_eq!(database_url("/h/.csm/sessions.db"), "sqlite:/h/.csm/sessions.db?mode=rwc");
    assert_eq!(column_name(0), "backend");
    assert_eq!(
        add_column_statement(0),
        "ALTER TABLE sessions ADD COLUMN backend TEXT NOT NULL DEFAULT 'local'"
    );
    assert_eq!(
        add_column_statement(1),
        "ALTER TABLE sessions ADD COLUMN codespace_name TEXT"
    );
    assert_eq!(db::JOURNAL_PRAGMA, "PRAGMA journal_mode=WAL;");
    assert_eq!(db::BUSY_PRAGMA, "PRAGMA busy_timeout=5000;");
}

#[test]
fn column_added_by_another_process_counts() {
    let mut columns = NameSet::new();
    columns.insert("backend".to_string());
    let (flow, effect) = ensure_session_columns();
    assert!(matches!(effect, Effect::SessionColumns));
    let (flow, effect) = flow.next(Event::Columns(NameSet::new()));
    assert!(matches!(effect, Effect::AddColumn { column: 0 }));
    let (flow, effect) = flow.next(Event::Failed(Failure::UnexpectedReply));
    assert!(matches!(effect, Effect::SessionColumns));
    let (_, effect) = flow.next(Event::Columns(columns));
    assert!(matches!(effect, Effect::SessionColumns));
}
