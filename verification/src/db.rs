use vstd::prelude::*;

verus! {

/// A package version, already split into its ordered numeric segments:
/// an epoch, the version segments themselves (most significant first), and
/// the packaging release segments. The session layer hands versions over in
/// this form; all ordering decisions on them are made here.
#[derive(Clone, PartialEq, Eq, Debug)]
pub struct Version {
    pub epoch: u64,
    pub parts: Vec<u64>,
    pub rel: Vec<u64>,
}

/// Segment lists compare lexicographically; a list that runs out first is
/// older, so a longer version with the same prefix is the newer one.
pub open spec fn spec_parts_cmp(a: Seq<u64>, b: Seq<u64>) -> int
    decreases a.len(),
{
    if a.len() == 0 && b.len() == 0 {
        0
    } else if a.len() == 0 {
        -1
    } else if b.len() == 0 {
        1
    } else if a[0] < b[0] {
        -1
    } else if a[0] > b[0] {
        1
    } else {
        spec_parts_cmp(a.skip(1), b.skip(1))
    }
}

/// Versions order by epoch first, then by the version segments, and by the
/// release segments only when both sides carry one.
pub open spec fn spec_version_cmp(a: Version, b: Version) -> int {
    if a.epoch < b.epoch {
        -1
    } else if a.epoch > b.epoch {
        1
    } else {
        let v = spec_parts_cmp(a.parts@, b.parts@);
        if v != 0 {
            v
        } else if a.rel@.len() > 0 && b.rel@.len() > 0 {
            spec_parts_cmp(a.rel@, b.rel@)
        } else {
            0
        }
    }
}

fn parts_cmp_from(a: &Vec<u64>, b: &Vec<u64>, i: usize) -> (r: i8)
    requires
        i <= a@.len(),
        i <= b@.len(),
    ensures
        r as int == spec_parts_cmp(a@.skip(i as int), b@.skip(i as int)),
    decreases a@.len() - i,
{
    if i == a.len() && i == b.len() {
        return 0;
    }
    if i == a.len() {
        return -1;
    }
    if i == b.len() {
        return 1;
    }
    proof {
        assert(a@.skip(i as int)[0] == a@[i as int]);
        assert(b@.skip(i as int)[0] == b@[i as int]);
        assert(a@.skip(i as int).skip(1) =~= a@.skip(i as int + 1));
        assert(b@.skip(i as int).skip(1) =~= b@.skip(i as int + 1));
    }
    if a[i] < b[i] {
        return -1;
    }
    if a[i] > b[i] {
        return 1;
    }
    parts_cmp_from(a, b, i + 1)
}

/// Total order on versions: negative when `a` is older than `b`, zero when
/// they rank the same, positive when `a` is newer.
pub fn version_cmp(a: &Version, b: &Version) -> (r: i8)
    ensures
        r as int == spec_version_cmp(*a, *b),
{
    if a.epoch < b.epoch {
        return -1;
    }
    if a.epoch > b.epoch {
        return 1;
    }
    proof {
        assert(a.parts@.skip(0) =~= a.parts@);
        assert(b.parts@.skip(0) =~= b.parts@);
    }
    let v = parts_cmp_from(&a.parts, &b.parts, 0);
    if v != 0 {
        return v;
    }
    if a.rel.len() > 0 && b.rel.len() > 0 {
        proof {
            assert(a.rel@.skip(0) =~= a.rel@);
            assert(b.rel@.skip(0) =~= b.rel@);
        }
        return parts_cmp_from(&a.rel, &b.rel, 0);
    }
    0
}

/// How a target constrains the version of what satisfies it.
#[derive(Clone, Copy, PartialEq, Eq, Structural, Debug)]
pub enum CmpOp {
    Exact,
    AtLeast,
    AtMost,
    Greater,
    Less,
}

pub open spec fn op_matches(op: CmpOp, c: int) -> bool {
    match op {
        CmpOp::Exact => c == 0,
        CmpOp::AtLeast => c >= 0,
        CmpOp::AtMost => c <= 0,
        CmpOp::Greater => c > 0,
        CmpOp::Less => c < 0,
    }
}

/// Whether a candidate version stands in relation `op` to the target's
/// version `wanted`.
pub fn version_satisfies(candidate: &Version, op: CmpOp, wanted: &Version) -> (r: bool)
    ensures
        r == op_matches(op, spec_version_cmp(*candidate, *wanted)),
{
    let c = version_cmp(candidate, wanted);
    match op {
        CmpOp::Exact => c == 0,
        CmpOp::AtLeast => c >= 0,
        CmpOp::AtMost => c <= 0,
        CmpOp::Greater => c > 0,
        CmpOp::Less => c < 0,
    }
}

/// A capability a package provides: a name, optionally pinned to a version.
#[derive(Clone, PartialEq, Eq, Debug)]
pub struct Provision {
    pub name: String,
    pub version: Option<Version>,
}

/// One package record in a database's listing.
#[derive(Clone, PartialEq, Eq, Debug)]
pub struct Package {
    pub name: String,
    pub version: Version,
    pub filename: String,
    pub provides: Vec<Provision>,
}

/// One package database: its name, its mirror list in configured priority
/// order, and its package listing.
#[derive(Clone, PartialEq, Eq, Debug)]
pub struct Database {
    pub name: String,
    pub servers: Vec<String>,
    pub packages: Vec<Package>,
}

/// The live view of a configured session: the record of installed packages
/// and the ordered remote databases, plus the database file suffix in use
/// (needed to name a database file in diagnostics).
#[derive(Clone, PartialEq, Eq, Debug)]
pub struct Session {
    pub localdb: Database,
    pub syncdbs: Vec<Database>,
    pub dbext: String,
}

/// Which database a package record lives in.
#[derive(Clone, Copy, PartialEq, Eq, Structural, Debug)]
pub enum DbRef {
    Local,
    Sync { index: usize },
}

/// A package record, identified by its database and its position in that
/// database's listing. Records are never copied out: accessors take the
/// session together with one of these.
#[derive(Clone, Copy, PartialEq, Eq, Structural, Debug)]
pub struct PkgRef {
    pub db: DbRef,
    pub index: usize,
}

impl Session {
    pub open spec fn db_of(self, d: DbRef) -> Database {
        match d {
            DbRef::Local => self.localdb,
            DbRef::Sync { index } => self.syncdbs@[index as int],
        }
    }

    /// The reference points inside this session's listings.
    pub open spec fn valid_ref(self, r: PkgRef) -> bool {
        &&& match r.db {
            DbRef::Local => true,
            DbRef::Sync { index } => index < self.syncdbs@.len(),
        }
        &&& r.index < self.db_of(r.db).packages@.len()
    }

    pub open spec fn pkg_of(self, r: PkgRef) -> Package {
        self.db_of(r.db).packages@[r.index as int]
    }

    /// The record a reference points at.
    pub fn package_at(&self, r: PkgRef) -> (p: &Package)
        requires
            self.valid_ref(r),
        ensures
            *p == self.pkg_of(r),
    {
        let db: &Database = match r.db {
            DbRef::Local => &self.localdb,
            DbRef::Sync { index } => &self.syncdbs[index],
        };
        &db.packages[r.index]
    }

    /// The database a reference points into.
    pub fn database_at(&self, r: PkgRef) -> (db: &Database)
        requires
            self.valid_ref(r),
        ensures
            *db == self.db_of(r.db),
    {
        match r.db {
            DbRef::Local => &self.localdb,
            DbRef::Sync { index } => &self.syncdbs[index],
        }
    }
}

/// String equality, stated over the character views.
pub fn str_eq(a: &String, b: &String) -> (r: bool)
    ensures
        r == (a@ == b@),
{
    a.eq(b)
}

} // verus!
