use vstd::prelude::*;
use vstd::string::StringExecFns;

verus! {

/// The caller-supplied overrides and switches a session is built from.
/// Loading the configuration file these override, and building the live
/// session, is disk work done outside this crate; every choice among the
/// inputs is made here.
#[derive(Clone, PartialEq, Eq, Debug)]
pub struct InitOptions {
    /// Explicit configuration file path, if any.
    pub config: Option<String>,
    /// Root directory override, if any.
    pub root: Option<String>,
    /// Database directory override, if any.
    pub dbpath: Option<String>,
    /// Cache directory override, if any.
    pub cachedir: Option<String>,
    /// Use the files-index database variant instead of package metadata.
    pub filedb: bool,
    /// Refresh intensity: 0 leaves the databases alone, 1 refreshes them,
    /// anything above forces a full refresh.
    pub refresh: u32,
}

/// Whether and how the remote databases are synchronized at startup.
#[derive(Clone, Copy, PartialEq, Eq, Structural, Debug)]
pub enum RefreshAction {
    Skip,
    Sync { force: bool },
}

/// Decides the startup synchronization from the refresh intensity: zero
/// skips it, one asks for a plain refresh, anything higher forces one.
pub fn refresh_plan(refresh: u32) -> (a: RefreshAction)
    ensures
        a is Skip <==> refresh == 0,
        a matches RefreshAction::Sync { force } ==> (force <==> refresh > 1),
{
    if refresh == 0 {
        RefreshAction::Skip
    } else {
        RefreshAction::Sync { force: refresh > 1 }
    }
}

/// The database directory the session is built on: the override where one
/// was given, the loaded configuration's value otherwise.
pub fn effective_dbpath(conf_dbpath: &str, over: &Option<String>) -> (r: String)
    ensures
        match over {
            Some(p) => r@ == p@,
            None => r@ == conf_dbpath@,
        },
{
    match over {
        Some(p) => p.clone(),
        None => conf_dbpath.to_owned(),
    }
}

/// The database file suffix in use: the files-index variant when asked for,
/// the package-metadata one otherwise.
pub fn effective_dbext(filedb: bool) -> (r: String)
    ensures
        filedb ==> r@ == ".files"@,
        !filedb ==> r@ == ".db"@,
{
    if filedb {
        ".files".to_owned()
    } else {
        ".db".to_owned()
    }
}

/// The cache directory downloads go to: an explicit override wins;
/// otherwise a directory of this tool's own under the process temporary
/// directory, which the caller must create.
pub fn resolve_cachedir(over: &Option<String>, tmpdir: &str) -> (r: String)
    ensures
        match over {
            Some(d) => r@ == d@,
            None => r@ == tmpdir@ + "/paccat"@,
        },
{
    match over {
        Some(d) => d.clone(),
        None => {
            let mut out = tmpdir.to_owned();
            out.append("/paccat");
            out
        },
    }
}

/// Everything the session builder decides before touching the system: the
/// database path and file suffix, the cache directory, the refresh to
/// perform and the notice owed before a refresh.
#[derive(Clone, PartialEq, Eq, Debug)]
pub struct InitPlan {
    pub dbpath: String,
    pub dbext: String,
    pub cachedir: String,
    pub refresh: RefreshAction,
    pub notice: Option<String>,
}

/// Merges the caller's overrides with the loaded configuration into one
/// startup plan: the database-path override takes precedence, the database
/// suffix follows the files-index switch, the cache directory falls back to
/// a tool-owned temporary directory, and a notice is owed exactly when the
/// databases are about to be synchronized.
pub fn plan_init(opts: &InitOptions, conf_dbpath: &str, tmpdir: &str) -> (p: InitPlan)
    ensures
        match opts.dbpath {
            Some(ref d) => p.dbpath@ == d@,
            None => p.dbpath@ == conf_dbpath@,
        },
        opts.filedb ==> p.dbext@ == ".files"@,
        !opts.filedb ==> p.dbext@ == ".db"@,
        match opts.cachedir {
            Some(ref d) => p.cachedir@ == d@,
            None => p.cachedir@ == tmpdir@ + "/paccat"@,
        },
        p.refresh is Skip <==> opts.refresh == 0,
        p.refresh matches RefreshAction::Sync { force } ==> (force <==> opts.refresh > 1),
        opts.refresh == 0 ==> p.notice is None,
        opts.refresh > 0 ==> (p.notice matches Some(n) && n@
            == "synchronising package databases..."@),
{
    let refresh = refresh_plan(opts.refresh);
    let notice = if opts.refresh > 0 {
        Some("synchronising package databases...".to_owned())
    } else {
        None
    };
    InitPlan {
        dbpath: effective_dbpath(conf_dbpath, &opts.dbpath),
        dbext: effective_dbext(opts.filedb),
        cachedir: resolve_cachedir(&opts.cachedir, tmpdir),
        refresh,
        notice,
    }
}

/// After initialization every remote database must pass a validity check;
/// the check itself is disk work done outside this crate, whose per-database
/// verdicts arrive here in database order. The first invalid database, if
/// any, is fatal and is named by its position.
pub fn check_databases(valid: &Vec<bool>) -> (r: Result<(), usize>)
    ensures
        r is Ok <==> forall|i: int| 0 <= i < valid@.len() ==> valid@[i],
        r matches Err(i) ==> (i as int) < valid@.len() && !valid@[i as int] && forall|j: int|
            0 <= j < i as int ==> valid@[j],
{
    let mut i: usize = 0;
    while i < valid.len()
        invariant
            i <= valid@.len(),
            forall|j: int| 0 <= j < i ==> valid@[j],
        decreases valid@.len() - i,
    {
        if !valid[i] {
            return Err(i);
        }
        i = i + 1;
    }
    Ok(())
}

/// The diagnostic naming a database that failed its validity check, by its
/// name and the database file suffix in use.
pub fn validity_error_text(name: &str, ext: &str) -> (r: String)
    ensures
        r@ == "database "@ + name@ + ext@ + " is not valid"@,
{
    let mut out = "database ".to_owned();
    out.append(name);
    out.append(ext);
    out.append(" is not valid");
    out
}

/// The diagnostic for a failed session construction, naming both paths.
pub fn init_error_text(root: &str, dbpath: &str) -> (r: String)
    ensures
        r@ == "failed to initialize alpm (root: "@ + root@ + ", dbpath: "@ + dbpath@ + ")"@,
{
    let mut out = "failed to initialize alpm (root: ".to_owned();
    out.append(root);
    out.append(", dbpath: ");
    out.append(dbpath);
    out.append(")");
    out
}

} // verus!
