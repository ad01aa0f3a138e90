use vstd::prelude::*;
use vstd::string::StringExecFns;
use crate::db::{PkgRef, Session};

verus! {

/// Why no download location could be derived.
#[derive(Clone, Copy, PartialEq, Eq, Structural, Debug)]
pub enum LocateError {
    /// The record's database has no mirror configured.
    NoServer,
}

/// The location an archive is fetched from: the first mirror of the owning
/// database, joined to the archive's file name with a single separator. The
/// mirror list is pre-ordered configuration input; no fallback and no
/// encoding happens here.
pub open spec fn spec_download_url(server: Seq<char>, filename: Seq<char>) -> Seq<char> {
    server + "/"@ + filename
}

/// Derives the download location for a resolved package record. Fails
/// exactly when the owning database has an empty mirror list.
pub fn get_download_url(s: &Session, r: PkgRef) -> (u: Result<String, LocateError>)
    requires
        s.valid_ref(r),
    ensures
        u is Ok <==> s.db_of(r.db).servers@.len() > 0,
        u matches Ok(url) ==> url@ == spec_download_url(
            s.db_of(r.db).servers@[0]@,
            s.pkg_of(r).filename@,
        ),
        u is Err ==> u == Result::<String, LocateError>::Err(LocateError::NoServer),
{
    let db = s.database_at(r);
    if db.servers.len() == 0 {
        return Err(LocateError::NoServer);
    }
    let pkg = s.package_at(r);
    let mut url = db.servers[0].clone();
    url.append("/");
    url.append(pkg.filename.as_str());
    Ok(url)
}

} // verus!
