use sidecar_supervisor::RuntimeMode;
use sidecar_supervisor::config::KeyValues;
use sidecar_supervisor::launch::plan_startup;
use sidecar_supervisor::paths::{resolve_storage_paths, stage_migrations};

fn kv(secret: Option<&str>, url: Option<&str>, cors: Option<&str>) -> KeyValues {
    KeyValues {
        better_auth_secret: secret.map(|s| s.to_string()),
        better_auth_url: url.map(|s| s.to_string()),
        cors_origin: cors.map(|s| s.to_string()),
    }
}

#[test]
fn development_paths_stay_in_the_project_root() {
    let paths = resolve_storage_paths(
        RuntimeMode::Development,
        &"/home/me/project".to_string(),
        &"/home/me/.local/share/app".to_string(),
    );
    assert_eq!(paths.database_url, "/home/me/project/local.db");
    assert!(paths.migrations_dir.is_none());
}

#[test]
fn production_paths_live_in_the_data_directory() {
    let paths = resolve_storage_paths(
        RuntimeMode::Production,
        &"/home/me/project".to_string(),
        &"/home/me/.local/share/app".to_string(),
    );
    assert_eq!(paths.database_url, "/home/me/.local/share/app/local.db");
    assert_eq!(
        paths.migrations_dir.as_deref(),
        Some("/home/me/.local/share/app/migrations")
    );
}

#[test]
fn staging_twice_copies_only_once() {
    let bundled = Some(vec!["0001.sql".to_string(), "0002.sql".to_string()]);
    let mut dest: Option<Vec<String>> = None;
    let first = stage_migrations(&bundled, &mut dest);
    assert!(first);
    assert_eq!(dest.as_deref(), Some(&["0001.sql".to_string(), "0002.sql".to_string()][..]));
    let second = stage_migrations(&bundled, &mut dest);
    assert!(!second);
    assert_eq!(dest.as_deref(), Some(&["0001.sql".to_string(), "0002.sql".to_string()][..]));
}

#[test]
fn staging_never_merges_into_an_existing_destination() {
    let bundled = Some(vec!["0002.sql".to_string()]);
    let mut dest = Some(vec!["0001.sql".to_string()]);
    let copied = stage_migrations(&bundled, &mut dest);
    assert!(!copied);
    assert_eq!(dest.as_deref(), Some(&["0001.sql".to_string()][..]));
}

#[test]
fn staging_without_bundled_assets_does_nothing() {
    let bundled: Option<Vec<String>> = None;
    let mut dest: Option<Vec<String>> = None;
    let copied = stage_migrations(&bundled, &mut dest);
    assert!(!copied);
    assert!(dest.is_none());
}

#[test]
fn production_first_run_stages_and_exports_the_migrations_folder() {
    let live = kv(Some("sec"), Some("http://127.0.0.1:3001"), Some("*"));
    let none = kv(None, None, None);
    let bundled = Some(vec!["0001.sql".to_string()]);
    let mut existing: Option<Vec<String>> = None;

    let plan = plan_startup(
        RuntimeMode::Production,
        &live,
        &none,
        &none,
        &none,
        &"/proj".to_string(),
        &"/data".to_string(),
        &bundled,
        &existing,
    )
    .unwrap();

    assert!(plan.copy_migrations);
    let copied = stage_migrations(&bundled, &mut existing);
    assert!(copied);
    assert_eq!(existing.as_deref(), Some(&["0001.sql".to_string()][..]));

    let migrations = plan
        .env
        .iter()
        .find(|(k, _)| k == "MIGRATIONS_FOLDER")
        .map(|(_, v)| v.clone());
    assert_eq!(migrations.as_deref(), Some("/data/migrations"));
}

#[test]
fn dev_startup_fails_before_spawn_on_a_missing_key() {
    let live = kv(None, Some("http://u"), Some("*"));
    let none = kv(None, None, None);
    let r = plan_startup(
        RuntimeMode::Development,
        &live,
        &none,
        &none,
        &none,
        &"/proj".to_string(),
        &"/data".to_string(),
        &None,
        &None,
    );
    let err = r.unwrap_err();
    assert_eq!(err.message(), "BETTER_AUTH_SECRET not set");
}

#[test]
fn development_plan_never_copies_migrations() {
    let live = kv(Some("s"), Some("u"), Some("c"));
    let none = kv(None, None, None);
    let bundled = Some(vec!["0001.sql".to_string()]);
    let plan = plan_startup(
        RuntimeMode::Development,
        &live,
        &none,
        &none,
        &none,
        &"/proj".to_string(),
        &"/data".to_string(),
        &bundled,
        &None,
    )
    .unwrap();
    assert!(!plan.copy_migrations);
    assert!(plan.paths.migrations_dir.is_none());
}

#[test]
fn worker_environment_holds_exactly_the_contracted_variables() {
    let live = kv(Some("sec"), Some("http://u"), Some("*"));
    let none = kv(None, None, None);
    let plan = plan_startup(
        RuntimeMode::Development,
        &live,
        &none,
        &none,
        &none,
        &"/proj".to_string(),
        &"/data".to_string(),
        &None,
        &None,
    )
    .unwrap();
    let names: Vec<&str> = plan.env.iter().map(|(k, _)| k.as_str()).collect();
    assert_eq!(
        names,
        vec!["BETTER_AUTH_SECRET", "BETTER_AUTH_URL", "CORS_ORIGIN", "DATABASE_URL", "NODE_ENV"]
    );
    assert_eq!(plan.env[0].1, "sec");
    assert_eq!(plan.env[3].1, "/proj/local.db");
    assert_eq!(plan.env[4].1, "development");
}
