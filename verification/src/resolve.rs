use vstd::prelude::*;
use vstd::string::StringExecFns;
use crate::db::{
    CmpOp, Database, DbRef, Package, PkgRef, Provision, Session, Version, op_matches,
    spec_version_cmp, str_eq, version_satisfies,
};

verus! {

/// A version bound a target puts on what may satisfy it.
#[derive(Clone, PartialEq, Eq, Debug)]
pub struct VersionConstraint {
    pub op: CmpOp,
    pub version: Version,
}

/// A parsed target: the string as the user gave it, an optional repository
/// qualifier restricting the search to one database, the package or
/// capability name wanted, and an optional version bound.
#[derive(Clone, PartialEq, Eq, Debug)]
pub struct TargetSpec {
    pub raw: String,
    pub repo: Option<String>,
    pub name: String,
    pub constraint: Option<VersionConstraint>,
}

/// Resolution failed: nothing in the selected scope satisfies the target.
#[derive(Clone, Copy, PartialEq, Eq, Structural, Debug)]
pub enum ResolveError {
    NotFound,
}

/// A version passes the target's bound (no bound passes everything).
pub open spec fn constraint_allows(c: Option<VersionConstraint>, v: Version) -> bool {
    match c {
        None => true,
        Some(vc) => op_matches(vc.op, spec_version_cmp(v, vc.version)),
    }
}

/// A provision satisfies the target: same name, and where the target is
/// version-bounded the provision must itself carry a version that passes
/// the bound — an unversioned provision never satisfies a bounded target.
pub open spec fn provision_satisfies(pr: Provision, t: TargetSpec) -> bool {
    &&& pr.name@ == t.name@
    &&& match t.constraint {
        None => true,
        Some(vc) => match pr.version {
            None => false,
            Some(v) => op_matches(vc.op, spec_version_cmp(v, vc.version)),
        },
    }
}

/// A package satisfies the target: either by its own name and version, or
/// through one of its provisions.
pub open spec fn pkg_satisfies(p: Package, t: TargetSpec) -> bool {
    ||| (p.name@ == t.name@ && constraint_allows(t.constraint, p.version))
    ||| exists|k: int| 0 <= k < p.provides@.len() && provision_satisfies(p.provides@[k], t)
}

fn constraint_allows_exec(c: &Option<VersionConstraint>, v: &Version) -> (r: bool)
    ensures
        r == constraint_allows(*c, *v),
{
    match c {
        None => true,
        Some(vc) => version_satisfies(v, vc.op, &vc.version),
    }
}

fn provision_satisfies_exec(pr: &Provision, t: &TargetSpec) -> (r: bool)
    ensures
        r == provision_satisfies(*pr, *t),
{
    if !str_eq(&pr.name, &t.name) {
        return false;
    }
    match &t.constraint {
        None => true,
        Some(vc) => match &pr.version {
            None => false,
            Some(v) => version_satisfies(v, vc.op, &vc.version),
        },
    }
}

/// Decides satisfaction of a target by one package record.
pub fn package_satisfies(p: &Package, t: &TargetSpec) -> (r: bool)
    ensures
        r == pkg_satisfies(*p, *t),
{
    if str_eq(&p.name, &t.name) && constraint_allows_exec(&t.constraint, &p.version) {
        return true;
    }
    let mut k: usize = 0;
    while k < p.provides.len()
        invariant
            k <= p.provides@.len(),
            forall|j: int| 0 <= j < k ==> !provision_satisfies(p.provides@[j], *t),
        decreases p.provides@.len() - k,
    {
        if provision_satisfies_exec(&p.provides[k], t) {
            assert(provision_satisfies(p.provides@[k as int], *t));
            return true;
        }
        k = k + 1;
    }
    false
}

/// Nothing in this database's listing satisfies the target.
pub open spec fn no_satisfier_in(db: Database, t: TargetSpec) -> bool {
    forall|i: int| 0 <= i < db.packages@.len() ==> !pkg_satisfies(db.packages@[i], t)
}

/// Position `i` holds the first satisfying record of this database.
pub open spec fn first_satisfier_in(db: Database, t: TargetSpec, i: int) -> bool {
    &&& 0 <= i < db.packages@.len()
    &&& pkg_satisfies(db.packages@[i], t)
    &&& forall|j: int| 0 <= j < i ==> !pkg_satisfies(db.packages@[j], t)
}

/// There is some satisfying record in this database.
pub open spec fn db_has_satisfier(db: Database, t: TargetSpec) -> bool {
    exists|i: int| 0 <= i < db.packages@.len() && pkg_satisfies(db.packages@[i], t)
}

/// Position `d` holds the first database of the list bearing this name.
pub open spec fn first_db_named(dbs: Seq<Database>, rname: Seq<char>, d: int) -> bool {
    &&& 0 <= d < dbs.len()
    &&& dbs[d].name@ == rname
    &&& forall|d2: int| 0 <= d2 < d ==> dbs[d2].name@ != rname
}

/// Finds the first record of one database satisfying the target.
pub fn find_satisfier_in(db: &Database, t: &TargetSpec) -> (r: Option<usize>)
    ensures
        r matches Some(i) ==> first_satisfier_in(*db, *t, i as int),
        r is None ==> no_satisfier_in(*db, *t),
{
    let mut i: usize = 0;
    while i < db.packages.len()
        invariant
            i <= db.packages@.len(),
            forall|j: int| 0 <= j < i ==> !pkg_satisfies(db.packages@[j], *t),
        decreases db.packages@.len() - i,
    {
        if package_satisfies(&db.packages[i], t) {
            return Some(i);
        }
        i = i + 1;
    }
    None
}

/// What remote resolution owes: with a repository qualifier, the search is
/// confined to the first database of that name and yields its first
/// satisfier; without one, the databases are scanned in configured order
/// and the first database holding a satisfier yields its first satisfier.
/// Not-found comes back exactly when the searched scope has no satisfier.
pub open spec fn resolve_remote_post(
    s: Session,
    t: TargetSpec,
    r: Result<PkgRef, ResolveError>,
) -> bool {
    match t.repo {
        Some(rname) => match r {
            Ok(pr) => match pr.db {
                DbRef::Local => false,
                DbRef::Sync { index } => first_db_named(s.syncdbs@, rname@, index as int)
                    && first_satisfier_in(s.syncdbs@[index as int], t, pr.index as int),
            },
            Err(e) => e is NotFound && forall|d: int|
                first_db_named(s.syncdbs@, rname@, d) ==> no_satisfier_in(s.syncdbs@[d], t),
        },
        None => match r {
            Ok(pr) => match pr.db {
                DbRef::Local => false,
                DbRef::Sync { index } => {
                    &&& (index as int) < s.syncdbs@.len()
                    &&& forall|d2: int|
                        0 <= d2 < index as int ==> no_satisfier_in(s.syncdbs@[d2], t)
                    &&& first_satisfier_in(s.syncdbs@[index as int], t, pr.index as int)
                },
            },
            Err(e) => e is NotFound && forall|d: int|
                0 <= d < s.syncdbs@.len() ==> no_satisfier_in(s.syncdbs@[d], t),
        },
    }
}

/// Searches the remote databases for the target.
#[verifier::loop_isolation(false)]
pub fn resolve_remote(s: &Session, t: &TargetSpec) -> (r: Result<PkgRef, ResolveError>)
    ensures
        resolve_remote_post(*s, *t, r),
{
    match t.repo {
        Some(ref rname) => {
            let mut d: usize = 0;
            while d < s.syncdbs.len()
                invariant
                    d <= s.syncdbs@.len(),
                    forall|d2: int| 0 <= d2 < d ==> s.syncdbs@[d2].name@ != rname@,
                decreases s.syncdbs@.len() - d,
            {
                if str_eq(&s.syncdbs[d].name, rname) {
                    assert(first_db_named(s.syncdbs@, rname@, d as int));
                    assert forall|dd: int|
                        first_db_named(s.syncdbs@, rname@, dd) implies dd == d as int by {
                        if dd < d as int {
                            assert(s.syncdbs@[dd].name@ != rname@);
                        } else if dd > d as int {
                            assert(s.syncdbs@[d as int].name@ != rname@);
                        }
                    }
                    return match find_satisfier_in(&s.syncdbs[d], t) {
                        Some(i) => Ok(PkgRef { db: DbRef::Sync { index: d }, index: i }),
                        None => Err(ResolveError::NotFound),
                    };
                }
                d = d + 1;
            }
            Err(ResolveError::NotFound)
        },
        None => {
            let mut d: usize = 0;
            while d < s.syncdbs.len()
                invariant
                    d <= s.syncdbs@.len(),
                    forall|d2: int| 0 <= d2 < d ==> no_satisfier_in(s.syncdbs@[d2], *t),
                decreases s.syncdbs@.len() - d,
            {
                if let Some(i) = find_satisfier_in(&s.syncdbs[d], t) {
                    return Ok(PkgRef { db: DbRef::Sync { index: d }, index: i });
                }
                d = d + 1;
            }
            Err(ResolveError::NotFound)
        },
    }
}

/// What installed-only resolution owes: the target string is looked up as
/// an exact package name in the local listing alone — no satisfaction
/// logic, no remote database is consulted — and not-found comes back
/// exactly when no installed package bears that name.
pub open spec fn resolve_local_post(
    s: Session,
    name: Seq<char>,
    r: Result<PkgRef, ResolveError>,
) -> bool {
    match r {
        Ok(pr) => {
            &&& pr.db is Local
            &&& (pr.index as int) < s.localdb.packages@.len()
            &&& s.localdb.packages@[pr.index as int].name@ == name
            &&& forall|j: int| 0 <= j < pr.index as int ==> s.localdb.packages@[j].name@ != name
        },
        Err(e) => e is NotFound && forall|j: int|
            0 <= j < s.localdb.packages@.len() ==> s.localdb.packages@[j].name@ != name,
    }
}

/// Looks the name up among the installed packages.
pub fn resolve_local(s: &Session, name: &String) -> (r: Result<PkgRef, ResolveError>)
    ensures
        resolve_local_post(*s, name@, r),
{
    let mut i: usize = 0;
    while i < s.localdb.packages.len()
        invariant
            i <= s.localdb.packages@.len(),
            forall|j: int| 0 <= j < i ==> s.localdb.packages@[j].name@ != name@,
        decreases s.localdb.packages@.len() - i,
    {
        if str_eq(&s.localdb.packages[i].name, name) {
            return Ok(PkgRef { db: DbRef::Local, index: i });
        }
        i = i + 1;
    }
    Err(ResolveError::NotFound)
}

/// Resolves a target to one package record: in installed-only scope the
/// target string is an exact name for the local listing; otherwise the
/// remote databases are searched in configured order.
pub fn get_dbpkg(s: &Session, t: &TargetSpec, localdb: bool) -> (r: Result<PkgRef, ResolveError>)
    ensures
        localdb ==> resolve_local_post(*s, t.raw@, r),
        !localdb ==> resolve_remote_post(*s, *t, r),
{
    if localdb {
        resolve_local(s, &t.raw)
    } else {
        resolve_remote(s, t)
    }
}

/// The diagnostic for a failed resolution, naming the target verbatim.
pub fn not_found_text(target: &str) -> (r: String)
    ensures
        r@ == "could not find package: "@ + target@,
{
    let mut out = "could not find package: ".to_owned();
    out.append(target);
    out
}

fn find_slash(s: &str, from: usize) -> (r: Option<usize>)
    requires
        from <= s@.len(),
    ensures
        r matches Some(p) ==> from <= p < s@.len() && s@[p as int] == '/' && forall|k: int|
            from <= k < p ==> s@[k] != '/',
        r is None ==> forall|k: int| from <= k < s@.len() ==> s@[k] != '/',
    decreases s@.len() - from,
{
    let l = s.unicode_len();
    if from == l {
        return None;
    }
    if s.get_char(from) == '/' {
        return Some(from);
    }
    find_slash(s, from + 1)
}

/// Positions `p` and `q` cut a target string at its repository qualifier:
/// `p` is the first separator and `q` ends the package segment, at the next
/// separator or the end — anything past a second separator is discarded.
pub open spec fn split_points(s: Seq<char>, p: int, q: int) -> bool {
    &&& 0 <= p < s.len()
    &&& s[p] == '/'
    &&& forall|k: int| 0 <= k < p ==> s[k] != '/'
    &&& p < q <= s.len()
    &&& forall|k: int| p < k < q ==> s[k] != '/'
    &&& (q == s.len() || s[q] == '/')
}

/// Splits a raw target into its optional repository qualifier and its
/// package segment: a string without a separator is all package name; one
/// with a separator names the repository before it and the package between
/// it and the next separator or the end.
pub fn split_repo(target: &str) -> (r: (Option<String>, String))
    ensures
        r.0 is None ==> r.1@ == target@ && forall|k: int|
            0 <= k < target@.len() ==> target@[k] != '/',
        r.0 matches Some(repo) ==> exists|p: int, q: int|
            #[trigger] split_points(target@, p, q) && repo@ == target@.subrange(0, p) && r.1@
                == target@.subrange(p + 1, q),
{
    match find_slash(target, 0) {
        None => (None, target.to_owned()),
        Some(p) => {
            let l = target.unicode_len();
            let q = match find_slash(target, p + 1) {
                Some(q) => q,
                None => l,
            };
            let repo = target.substring_char(0, p).to_owned();
            let name = target.substring_char(p + 1, q).to_owned();
            proof {
                assert(split_points(target@, p as int, q as int));
            }
            (Some(repo), name)
        },
    }
}

/// A character that begins a version-bound operator in a target string.
pub open spec fn is_op_char(c: char) -> bool {
    c == '<' || c == '>' || c == '='
}

/// Position `m` is where the target's version bound begins: the first
/// operator character.
pub open spec fn op_starts_at(s: Seq<char>, m: int) -> bool {
    &&& 0 <= m < s.len()
    &&& is_op_char(s[m])
    &&& forall|k: int| 0 <= k < m ==> !is_op_char(s[k])
}

fn find_op_char(s: &str, from: usize) -> (r: Option<usize>)
    requires
        from <= s@.len(),
    ensures
        r matches Some(m) ==> from <= m < s@.len() && is_op_char(s@[m as int]) && forall|k: int|
            from <= k < m ==> !is_op_char(s@[k]),
        r is None ==> forall|k: int| from <= k < s@.len() ==> !is_op_char(s@[k]),
    decreases s@.len() - from,
{
    let l = s.unicode_len();
    if from == l {
        return None;
    }
    let c = s.get_char(from);
    if c == '<' || c == '>' || c == '=' {
        return Some(from);
    }
    find_op_char(s, from + 1)
}

/// The operator and the version text that follow position `m`, where the
/// bound begins: a bare `=` pins the version exactly, `<` and `>` compare
/// strictly, and each widens to `<=` or `>=` when an `=` follows it.
pub open spec fn bound_after(s: Seq<char>, m: int, op: CmpOp, ver: Seq<char>) -> bool {
    if s[m] == '=' {
        op == CmpOp::Exact && ver == s.subrange(m + 1, s.len() as int)
    } else if m + 1 < s.len() && s[m + 1] == '=' {
        (if s[m] == '<' {
            op == CmpOp::AtMost
        } else {
            op == CmpOp::AtLeast
        }) && ver == s.subrange(m + 2, s.len() as int)
    } else {
        (if s[m] == '<' {
            op == CmpOp::Less
        } else {
            op == CmpOp::Greater
        }) && ver == s.subrange(m + 1, s.len() as int)
    }
}

/// Splits a package segment into the bare name and its optional version
/// bound, whose version is handed back as text.
pub fn split_constraint(seg: &str) -> (r: (String, Option<(CmpOp, String)>))
    ensures
        r.1 is None ==> r.0@ == seg@ && forall|k: int|
            0 <= k < seg@.len() ==> !is_op_char(seg@[k]),
        r.1 matches Some((op, ver)) ==> exists|m: int|
            #[trigger] op_starts_at(seg@, m) && r.0@ == seg@.subrange(0, m) && bound_after(
                seg@,
                m,
                op,
                ver@,
            ),
{
    match find_op_char(seg, 0) {
        None => (seg.to_owned(), None),
        Some(m) => {
            let l = seg.unicode_len();
            let name = seg.substring_char(0, m).to_owned();
            let c = seg.get_char(m);
            if c == '=' {
                let ver = seg.substring_char(m + 1, l).to_owned();
                proof {
                    assert(op_starts_at(seg@, m as int));
                }
                (name, Some((CmpOp::Exact, ver)))
            } else {
                let wide = m + 1 < l && seg.get_char(m + 1) == '=';
                let start = if wide {
                    m + 2
                } else {
                    m + 1
                };
                let ver = seg.substring_char(start, l).to_owned();
                let op = if c == '<' && wide {
                    CmpOp::AtMost
                } else if c == '<' {
                    CmpOp::Less
                } else if wide {
                    CmpOp::AtLeast
                } else {
                    CmpOp::Greater
                };
                proof {
                    assert(op_starts_at(seg@, m as int));
                }
                (name, Some((op, ver)))
            }
        },
    }
}

/// Law: installed-only resolution never falls back to the remote
/// databases: when no installed package bears the target name, it fails
/// not-found, even where some remote database lists a package of that very
/// name.
pub proof fn lemma_local_only_ignores_remote(
    s: Session,
    name: Seq<char>,
    r: Result<PkgRef, ResolveError>,
    d: int,
    i: int,
)
    requires
        resolve_local_post(s, name, r),
        forall|j: int| 0 <= j < s.localdb.packages@.len() ==> s.localdb.packages@[j].name@ != name,
        0 <= d < s.syncdbs@.len(),
        0 <= i < s.syncdbs@[d].packages@.len(),
        s.syncdbs@[d].packages@[i].name@ == name,
    ensures
        r matches Err(e) && e is NotFound,
{
    if r is Ok {
        let pr = r->Ok_0;
        assert(s.localdb.packages@[pr.index as int].name@ != name);
    }
}

/// Law: remote resolution honors the configured database order: where an
/// earlier database can satisfy the target and every database before it
/// cannot, the result comes from that earlier database, never from a later
/// one that also satisfies it.
pub proof fn lemma_remote_prefers_earlier_db(
    s: Session,
    t: TargetSpec,
    r: Result<PkgRef, ResolveError>,
    a: int,
)
    requires
        resolve_remote_post(s, t, r),
        t.repo is None,
        0 <= a < s.syncdbs@.len(),
        db_has_satisfier(s.syncdbs@[a], t),
        forall|d2: int| 0 <= d2 < a ==> no_satisfier_in(s.syncdbs@[d2], t),
    ensures
        r matches Ok(pr) && pr.db matches DbRef::Sync { index } && index as int == a,
{
    let w = choose|i: int| 0 <= i < s.syncdbs@[a].packages@.len() && pkg_satisfies(
        s.syncdbs@[a].packages@[i],
        t,
    );
    if r is Err {
        assert(no_satisfier_in(s.syncdbs@[a], t));
        assert(!pkg_satisfies(s.syncdbs@[a].packages@[w], t));
    } else {
        let pr = r->Ok_0;
        match pr.db {
            DbRef::Local => {
                assert(false);
            },
            DbRef::Sync { index } => {
                if (index as int) < a {
                    assert(no_satisfier_in(s.syncdbs@[index as int], t));
                    assert(!pkg_satisfies(s.syncdbs@[index as int].packages@[pr.index as int], t));
                } else if (index as int) > a {
                    assert(no_satisfier_in(s.syncdbs@[a], t));
                    assert(!pkg_satisfies(s.syncdbs@[a].packages@[w], t));
                }
            },
        }
    }
}

} // verus!

