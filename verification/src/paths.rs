//! Per-mode storage paths and first-run migration staging.
//!
//! Development points the store at a fixed file under the project root and
//! reads migrations in place; production points it inside the application's
//! private writable directory and stages the bundled migration assets there
//! once, skipping the copy whenever the destination already exists.

use vstd::prelude::*;
use crate::RuntimeMode;

verus! {

/// Where the worker's persistent store and its schema migrations live.
#[derive(Debug)]
pub struct StoragePaths {
    /// Filesystem path of the persistent store, handed to the worker as its
    /// connection string.
    pub database_url: String,
    /// Directory the worker reads migrations from; absent in development,
    /// where migrations are read from the source layout instead.
    pub migrations_dir: Option<String>,
}

/// Compute the storage paths for a mode. Development: a fixed file under the
/// project root, no migrations directory. Production: a fixed file under the
/// writable data directory, and a fixed migrations subdirectory of it.
pub fn resolve_storage_paths(mode: RuntimeMode, project_root: &String, app_data_dir: &String) -> (r:
    StoragePaths)
    ensures
        mode is Development ==> r.database_url@ == project_root@ + "/local.db"@,
        mode is Development ==> r.migrations_dir is None,
        mode is Production ==> r.database_url@ == app_data_dir@ + "/local.db"@,
        mode is Production ==> r.migrations_dir is Some,
        mode is Production ==> r.migrations_dir->0@ == app_data_dir@ + "/migrations"@,
{
    if mode.is_dev() {
        StoragePaths {
            database_url: project_root.clone().concat("/local.db"),
            migrations_dir: None,
        }
    } else {
        StoragePaths {
            database_url: app_data_dir.clone().concat("/local.db"),
            migrations_dir: Some(app_data_dir.clone().concat("/migrations")),
        }
    }
}

/// The contents of a directory as the relative names of the files below it,
/// or `None` where the directory does not exist at all.
pub open spec fn listing_of(dir: Option<Vec<String>>) -> Option<Seq<String>> {
    match dir {
        Some(files) => Some(files@),
        None => None,
    }
}

/// Whether staging copies: only when bundled assets exist and the destination
/// does not yet.
pub open spec fn stage_copies(bundled: Option<Seq<String>>, dest: Option<Seq<String>>) -> bool {
    bundled is Some && dest is None
}

/// The destination after one staging pass: populated with the bundled assets
/// exactly where a copy happens, untouched otherwise (no merge, no
/// overwrite).
pub open spec fn stage_result(bundled: Option<Seq<String>>, dest: Option<Seq<String>>) -> Option<
    Seq<String>,
> {
    if stage_copies(bundled, dest) {
        bundled
    } else {
        dest
    }
}

/// One guarded staging pass over the migrations destination: copy the bundled
/// assets only on first run, when the destination directory is absent; report
/// whether a copy happened so callers can perform (or assert on) the real
/// filesystem work.
pub fn stage_migrations(bundled: &Option<Vec<String>>, dest: &mut Option<Vec<String>>) -> (copied:
    bool)
    ensures
        copied == stage_copies(listing_of(*bundled), listing_of(*old(dest))),
        listing_of(*final(dest)) == stage_result(listing_of(*bundled), listing_of(*old(dest))),
{
    match bundled {
        Some(files) => {
            if dest.is_none() {
                let mut copy: Vec<String> = Vec::new();
                let mut i: usize = 0;
                while i < files.len()
                    invariant
                        i <= files.len(),
                        copy@.len() == i as int,
                        forall|j: int| 0 <= j < i as int ==> copy@[j] == files@[j],
                    decreases files.len() - i,
                {
                    copy.push(files[i].clone());
                    i = i + 1;
                }
                proof {
                    assert(copy@ =~= files@);
                }
                *dest = Some(copy);
                true
            } else {
                false
            }
        },
        None => false,
    }
}

/// Staging is idempotent: after one pass, a second pass over the same bundled
/// assets performs no copy, whatever state the destination started in.
pub proof fn lemma_staging_idempotent(bundled: Option<Seq<String>>, dest: Option<Seq<String>>)
    ensures
        !stage_copies(bundled, stage_result(bundled, dest)),
        stage_result(bundled, stage_result(bundled, dest)) == stage_result(bundled, dest),
{
}

} // verus!
