//! Assembling the worker launch: the exact environment the worker receives,
//! and the full startup plan the host executes.
//!
//! The worker is spawned with exactly these variables merged over its
//! inherited environment: the three configuration secrets, the storage
//! connection string, the run-mode name, and — in production only — the
//! migrations directory.

use vstd::prelude::*;
use crate::RuntimeMode;
use crate::config::{
    ConfigError, ConfigKey, EnvVars, KeyValues, effective_env, first_missing, resolve_config,
    resolved_value,
};
use crate::paths::{StoragePaths, listing_of, resolve_storage_paths, stage_copies};

verus! {

/// The environment handed to the worker, entry by entry: the three secrets,
/// the connection string, the mode name, and the migrations directory
/// exactly when one was resolved — nothing else.
pub open spec fn worker_env_matches(
    env: Seq<(String, String)>,
    vars: EnvVars,
    paths: StoragePaths,
    mode: RuntimeMode,
) -> bool {
    &&& env.len() == if paths.migrations_dir is Some {
        6int
    } else {
        5int
    }
    &&& env[0].0@ == "BETTER_AUTH_SECRET"@
    &&& env[0].1 == vars.better_auth_secret
    &&& env[1].0@ == "BETTER_AUTH_URL"@
    &&& env[1].1 == vars.better_auth_url
    &&& env[2].0@ == "CORS_ORIGIN"@
    &&& env[2].1 == vars.cors_origin
    &&& env[3].0@ == "DATABASE_URL"@
    &&& env[3].1 == paths.database_url
    &&& env[4].0@ == "NODE_ENV"@
    &&& env[4].1@ == mode.name_spec()
    &&& paths.migrations_dir is Some ==> env[5].0@ == "MIGRATIONS_FOLDER"@ && env[5].1
        == paths.migrations_dir->0
}

/// Build the worker's environment from the resolved configuration and
/// storage paths.
pub fn worker_env(vars: &EnvVars, paths: &StoragePaths, mode: RuntimeMode) -> (r: Vec<
    (String, String),
>)
    ensures
        worker_env_matches(r@, *vars, *paths, mode),
{
    let mut env: Vec<(String, String)> = Vec::new();
    env.push((String::from_str("BETTER_AUTH_SECRET"), vars.better_auth_secret.clone()));
    env.push((String::from_str("BETTER_AUTH_URL"), vars.better_auth_url.clone()));
    env.push((String::from_str("CORS_ORIGIN"), vars.cors_origin.clone()));
    env.push((String::from_str("DATABASE_URL"), paths.database_url.clone()));
    env.push((String::from_str("NODE_ENV"), mode.name()));
    match &paths.migrations_dir {
        Some(dir) => {
            env.push((String::from_str("MIGRATIONS_FOLDER"), dir.clone()));
        },
        None => {},
    }
    env
}

/// Everything the host needs to launch the worker: the resolved secrets, the
/// storage paths, whether the bundled migrations must be copied first, and
/// the exact spawn environment.
#[derive(Debug)]
pub struct StartupPlan {
    pub vars: EnvVars,
    pub paths: StoragePaths,
    /// True exactly when the host must copy the bundled migration assets
    /// into the writable destination before spawning: production mode,
    /// bundled assets present, destination not yet.
    pub copy_migrations: bool,
    pub env: Vec<(String, String)>,
}

/// Resolve everything the launch depends on, or fail with the first missing
/// configuration key before any spawn is attempted. No filesystem work
/// happens here: the host performs the copy the plan calls for, then spawns
/// the worker with exactly the planned environment.
pub fn plan_startup(
    mode: RuntimeMode,
    live: &KeyValues,
    web_file: &KeyValues,
    server_file: &KeyValues,
    compile_time: &KeyValues,
    project_root: &String,
    app_data_dir: &String,
    bundled_migrations: &Option<Vec<String>>,
    existing_migrations: &Option<Vec<String>>,
) -> (r: Result<StartupPlan, ConfigError>)
    ensures
        r is Ok <==> (forall|k: ConfigKey| #[trigger] resolved_value(
            mode,
            *live,
            *web_file,
            *server_file,
            *compile_time,
            k,
        ) is Some),
        r is Err ==> resolved_value(
            mode,
            *live,
            *web_file,
            *server_file,
            *compile_time,
            r->Err_0.key,
        ) is None,
        r is Err ==> r->Err_0.key == first_missing(
            effective_env(mode, *live, *web_file, *server_file),
            *compile_time,
        ),
        r is Ok ==> ({
            let plan = r->Ok_0;
            &&& plan.vars.better_auth_secret@.len() > 0
            &&& plan.vars.better_auth_url@.len() > 0
            &&& plan.vars.cors_origin@.len() > 0
            &&& Some(plan.vars.better_auth_secret) == resolved_value(
                mode,
                *live,
                *web_file,
                *server_file,
                *compile_time,
                ConfigKey::AuthSecret,
            )
            &&& Some(plan.vars.better_auth_url) == resolved_value(
                mode,
                *live,
                *web_file,
                *server_file,
                *compile_time,
                ConfigKey::AuthUrl,
            )
            &&& Some(plan.vars.cors_origin) == resolved_value(
                mode,
                *live,
                *web_file,
                *server_file,
                *compile_time,
                ConfigKey::CorsOrigin,
            )
            &&& mode is Development ==> plan.paths.database_url@ == project_root@ + "/local.db"@
                && plan.paths.migrations_dir is None
            &&& mode is Production ==> plan.paths.database_url@ == app_data_dir@ + "/local.db"@
                && plan.paths.migrations_dir is Some && plan.paths.migrations_dir->0@
                == app_data_dir@ + "/migrations"@
            &&& plan.copy_migrations == (mode is Production && stage_copies(
                listing_of(*bundled_migrations),
                listing_of(*existing_migrations),
            ))
            &&& worker_env_matches(plan.env@, plan.vars, plan.paths, mode)
        }),
{
    let vars = resolve_config(mode, live, web_file, server_file, compile_time)?;
    let paths = resolve_storage_paths(mode, project_root, app_data_dir);
    let copy_migrations = if mode.is_dev() {
        false
    } else {
        bundled_migrations.is_some() && existing_migrations.is_none()
    };
    let env = worker_env(&vars, &paths, mode);
    Ok(StartupPlan { vars, paths, copy_migrations, env })
}

} // verus!
