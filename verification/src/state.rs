//! Where the per-user records live. Reading and writing them is done outside the library;
//! here are the locations and how they are derived.
use crate::error::{fails_validation, validation_error, HawkError};
use crate::model::{is_absolute_path, path_is_absolute};
use vstd::prelude::*;

verus! {

/// The path std's `Path::join` gives for `part` under `base` (as text).
pub uninterp spec fn joined_path(base: Seq<char>, part: Seq<char>) -> Seq<char>;

/// `s` ends with `t`.
pub open spec fn ends_with(s: Seq<char>, t: Seq<char>) -> bool {
    t.len() <= s.len() && s.subrange(s.len() - t.len(), s.len() as int) == t
}

/// A plain file name: lower-case ASCII letters and dots, starting with a letter (one normal,
/// relative path component).
pub open spec fn plain_file_name(t: Seq<char>) -> bool {
    &&& t.len() > 0
    &&& 'a' <= t[0] <= 'z'
    &&& forall|i: int| 0 <= i < t.len() ==> ('a' <= #[trigger] t[i] <= 'z' || t[i] == '.')
}

/// `Path::new(base).join(part)`, as text. Joining one relative, normal component
/// (`PathBuf::push`) appends it after a separator, so the path ends with it.
#[verifier::external_body]
pub(crate) fn path_join(base: &str, part: &str) -> (s: String)
    ensures
        s@ == joined_path(base@, part@),
        plain_file_name(part@) ==> ends_with(s@, part@),
{
    std::path::Path::new(base).join(part).to_string_lossy().into_owned()
}

/// The configuration, runtime-state and log directories.
#[derive(Clone, Debug)]
pub struct AppPaths {
    pub config_dir: String,
    pub state_dir: String,
    pub log_dir: String,
}

/// The per-user directories the platform convention offers (`directories::ProjectDirs`):
/// configuration, state (not every platform has one) and local data.
pub struct ProjectLocations {
    pub config_dir: String,
    pub state_dir: Option<String>,
    pub data_local_dir: String,
}

pub open spec fn relative_home_message() -> Seq<char> {
    "NETBIRD_HAWK_HOME must be an absolute path"@
}

impl AppPaths {
    /// `config`, `state` and `logs` beneath `root`.
    pub fn under(root: &str) -> (p: AppPaths)
        ensures
            p.config_dir@ == joined_path(root@, "config"@),
            p.state_dir@ == joined_path(root@, "state"@),
            p.log_dir@ == joined_path(root@, "logs"@),
    {
        AppPaths {
            config_dir: path_join(root, "config"),
            state_dir: path_join(root, "state"),
            log_dir: path_join(root, "logs"),
        }
    }

    /// The directories to use: beneath an alternate home root when one is given (it must be
    /// absolute), otherwise the platform's per-user directories, with state falling back to
    /// local data and logs beneath local data.
    pub fn from_locations(home: Option<String>, project: Option<ProjectLocations>) -> (r: Result<AppPaths, HawkError>)
        ensures
            match home {
                Some(root) => if path_is_absolute(root@) {
                    r matches Ok(p) && p.config_dir@ == joined_path(root@, "config"@) && p.state_dir@
                        == joined_path(root@, "state"@) && p.log_dir@ == joined_path(root@, "logs"@)
                } else {
                    fails_validation(r, relative_home_message())
                },
                None => match project {
                    None => r matches Err(HawkError::StateDirectoryUnavailable),
                    Some(l) => r matches Ok(p) && p.config_dir == l.config_dir && p.state_dir == (match l.state_dir {
                        Some(s) => s,
                        None => l.data_local_dir,
                    }) && p.log_dir@ == joined_path(l.data_local_dir@, "logs"@),
                },
            },
    {
        match home {
            Some(root) => {
                if !is_absolute_path(root.as_str()) {
                    return Err(validation_error("NETBIRD_HAWK_HOME must be an absolute path"));
                }
                Ok(AppPaths::under(root.as_str()))
            },
            None => match project {
                None => Err(HawkError::StateDirectoryUnavailable),
                Some(l) => {
                    let log_dir = path_join(l.data_local_dir.as_str(), "logs");
                    let state_dir = match l.state_dir {
                        Some(s) => s,
                        None => l.data_local_dir,
                    };
                    Ok(AppPaths { config_dir: l.config_dir, state_dir, log_dir })
                },
            },
        }
    }
}

/// The files of the per-user records, in order: configuration, control intent, execution
/// journal, runtime snapshot, controller lock, lifetime lock.
pub open spec fn record_files(p: AppPaths) -> Seq<Seq<char>> {
    seq![
        joined_path(p.config_dir@, "config.json"@),
        joined_path(p.state_dir@, "control.json"@),
        joined_path(p.state_dir@, "journal.json"@),
        joined_path(p.state_dir@, "runtime.json"@),
        joined_path(p.state_dir@, "controller.lock"@),
        joined_path(p.state_dir@, "daemon.lock"@),
    ]
}

/// No two records share a file, wherever the directories are (the configuration and state
/// directories may even be the same).
pub open spec fn records_distinct(p: AppPaths) -> bool {
    forall|i: int, j: int| 0 <= i < j < 6 ==> #[trigger] record_files(p)[i] != #[trigger] record_files(p)[j]
}

/// Two paths ending with file names that differ in their `k`-th character from the end are
/// different paths.
proof fn lemma_suffix_distinct(p1: Seq<char>, p2: Seq<char>, t1: Seq<char>, t2: Seq<char>, k: int)
    requires
        ends_with(p1, t1),
        ends_with(p2, t2),
        1 <= k <= t1.len(),
        k <= t2.len(),
        t1[t1.len() - k] != t2[t2.len() - k],
    ensures
        p1 != p2,
{
    assert(p1[p1.len() - k] == t1[t1.len() - k]);
    assert(p2[p2.len() - k] == t2[t2.len() - k]);
}

/// The per-user record store, by location.
#[derive(Debug)]
pub struct StateStore {
    paths: AppPaths,
    config_file: String,
    control_file: String,
    journal_file: String,
    runtime_file: String,
    controller_lock_file: String,
    lifetime_lock_file: String,
}

impl StateStore {
    #[verifier::type_invariant]
    spec fn valid(self) -> bool {
        &&& self.config_file@ == record_files(self.paths)[0]
        &&& self.control_file@ == record_files(self.paths)[1]
        &&& self.journal_file@ == record_files(self.paths)[2]
        &&& self.runtime_file@ == record_files(self.paths)[3]
        &&& self.controller_lock_file@ == record_files(self.paths)[4]
        &&& self.lifetime_lock_file@ == record_files(self.paths)[5]
        &&& records_distinct(self.paths)
    }

    pub closed spec fn paths_view(&self) -> AppPaths {
        self.paths
    }

    /// The store for `paths`; its record files are all different.
    pub fn new(paths: AppPaths) -> (s: StateStore)
        ensures
            s.paths_view() == paths,
            records_distinct(paths),
    {
        let config_file = path_join(paths.config_dir.as_str(), "config.json");
        let control_file = path_join(paths.state_dir.as_str(), "control.json");
        let journal_file = path_join(paths.state_dir.as_str(), "journal.json");
        let runtime_file = path_join(paths.state_dir.as_str(), "runtime.json");
        let controller_lock_file = path_join(paths.state_dir.as_str(), "controller.lock");
        let lifetime_lock_file = path_join(paths.state_dir.as_str(), "daemon.lock");
        proof {
            reveal_strlit("config.json");
            reveal_strlit("control.json");
            reveal_strlit("journal.json");
            reveal_strlit("runtime.json");
            reveal_strlit("controller.lock");
            reveal_strlit("daemon.lock");
            let f = record_files(paths);
            let t = seq!["config.json"@, "control.json"@, "journal.json"@, "runtime.json"@, "controller.lock"@, "daemon.lock"@];
            assert(plain_file_name(t[0]));
            assert(plain_file_name(t[1]));
            assert(plain_file_name(t[2]));
            assert(plain_file_name(t[3]));
            assert(plain_file_name(t[4]));
            assert(plain_file_name(t[5]));
            lemma_suffix_distinct(f[0], f[1], t[0], t[1], 6);
            lemma_suffix_distinct(f[0], f[2], t[0], t[2], 6);
            lemma_suffix_distinct(f[0], f[3], t[0], t[3], 6);
            lemma_suffix_distinct(f[0], f[4], t[0], t[4], 1);
            lemma_suffix_distinct(f[0], f[5], t[0], t[5], 1);
            lemma_suffix_distinct(f[1], f[2], t[1], t[2], 7);
            lemma_suffix_distinct(f[1], f[3], t[1], t[3], 6);
            lemma_suffix_distinct(f[1], f[4], t[1], t[4], 1);
            lemma_suffix_distinct(f[1], f[5], t[1], t[5], 1);
            lemma_suffix_distinct(f[2], f[3], t[2], t[3], 6);
            lemma_suffix_distinct(f[2], f[4], t[2], t[4], 1);
            lemma_suffix_distinct(f[2], f[5], t[2], t[5], 1);
            lemma_suffix_distinct(f[3], f[4], t[3], t[4], 1);
            lemma_suffix_distinct(f[3], f[5], t[3], t[5], 1);
            lemma_suffix_distinct(f[4], f[5], t[4], t[5], 6);
        }
        StateStore {
            paths,
            config_file,
            control_file,
            journal_file,
            runtime_file,
            controller_lock_file,
            lifetime_lock_file,
        }
    }

    pub fn under(root: &str) -> (s: StateStore)
        ensures
            s.paths_view().config_dir@ == joined_path(root@, "config"@),
            s.paths_view().state_dir@ == joined_path(root@, "state"@),
            s.paths_view().log_dir@ == joined_path(root@, "logs"@),
            records_distinct(s.paths_view()),
    {
        StateStore::new(AppPaths::under(root))
    }

    /// The directories; the record files within them are all different.
    pub fn paths(&self) -> (p: &AppPaths)
        ensures
            *p == self.paths_view(),
            records_distinct(*p),
    {
        proof {
            use_type_invariant(self);
        }
        &self.paths
    }

    /// `config.json` in the configuration directory, a file no other record uses.
    pub fn config_path(&self) -> (p: String)
        ensures
            p@ == joined_path(self.paths_view().config_dir@, "config.json"@),
            p@ == record_files(self.paths_view())[0],
            records_distinct(self.paths_view()),
    {
        proof {
            use_type_invariant(self);
        }
        self.config_file.clone()
    }

    /// `control.json` in the state directory, a file no other record uses.
    pub fn control_path(&self) -> (p: String)
        ensures
            p@ == joined_path(self.paths_view().state_dir@, "control.json"@),
            p@ == record_files(self.paths_view())[1],
            records_distinct(self.paths_view()),
    {
        proof {
            use_type_invariant(self);
        }
        self.control_file.clone()
    }

    /// `journal.json` in the state directory, a file no other record uses.
    pub fn journal_path(&self) -> (p: String)
        ensures
            p@ == joined_path(self.paths_view().state_dir@, "journal.json"@),
            p@ == record_files(self.paths_view())[2],
            records_distinct(self.paths_view()),
    {
        proof {
            use_type_invariant(self);
        }
        self.journal_file.clone()
    }

    /// `runtime.json` in the state directory, a file no other record uses.
    pub fn runtime_path(&self) -> (p: String)
        ensures
            p@ == joined_path(self.paths_view().state_dir@, "runtime.json"@),
            p@ == record_files(self.paths_view())[3],
            records_distinct(self.paths_view()),
    {
        proof {
            use_type_invariant(self);
        }
        self.runtime_file.clone()
    }

    /// `controller.lock` in the state directory, a file no other record uses.
    pub fn controller_lock_path(&self) -> (p: String)
        ensures
            p@ == joined_path(self.paths_view().state_dir@, "controller.lock"@),
            p@ == record_files(self.paths_view())[4],
            records_distinct(self.paths_view()),
    {
        proof {
            use_type_invariant(self);
        }
        self.controller_lock_file.clone()
    }

    /// `daemon.lock` in the state directory, a file no other record uses.
    pub fn lifetime_lock_path(&self) -> (p: String)
        ensures
            p@ == joined_path(self.paths_view().state_dir@, "daemon.lock"@),
            p@ == record_files(self.paths_view())[5],
            records_distinct(self.paths_view()),
    {
        proof {
            use_type_invariant(self);
        }
        self.lifetime_lock_file.clone()
    }
}

} // verus!
