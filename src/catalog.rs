//! Listing the store: which directory entries are metadata files, and how the
//! records read from them make up the catalog.
//!
//! A listing is strict: one metadata file that cannot be read or parsed fails
//! the whole listing.

use crate::error::Error;
use crate::path::{is_metadata_file, is_metadata_name, join, join_spec};
use crate::resource::Resource;
use crate::store::Project;
use vstd::prelude::*;

verus! {

/// The paths of the metadata files among the entry names `names` of the
/// directory `dir`, in the order of `names`.
pub open spec fn metadata_paths(dir: Seq<char>, names: Seq<Seq<char>>) -> Seq<Seq<char>>
    decreases names.len(),
{
    if names.len() == 0 {
        Seq::empty()
    } else {
        let rest = metadata_paths(dir, names.drop_last());
        if is_metadata_name(names.last()) {
            rest.push(join_spec(dir, names.last()))
        } else {
            rest
        }
    }
}

/// Whether every read succeeded.
pub open spec fn all_read(results: Seq<Result<Resource, Error>>) -> bool {
    forall|i: int| 0 <= i < results.len() ==> results[i] is Ok
}

/// Whether `e` is the error of the first read that failed.
pub open spec fn first_failure(results: Seq<Result<Resource, Error>>, e: Error) -> bool {
    exists|i: int|
        0 <= i < results.len() && results[i] == Err::<Resource, Error>(e) && forall|j: int|
            0 <= j < i ==> results[j] is Ok
}

impl Project {
    /// The paths of the metadata files among the names of the store
    /// directory's entries, in the order given.
    pub fn metadata_files(&self, names: &Vec<String>) -> (r: Vec<String>)
        ensures
            r.deep_view() == metadata_paths(self.dir(), names.deep_view()),
    {
        let mut r: Vec<String> = Vec::new();
        let ghost dv = names.deep_view();
        let mut i: usize = 0;
        while i < names.len()
            invariant
                i <= names.len(),
                dv == names.deep_view(),
                r.deep_view() == metadata_paths(self.dir(), dv.subrange(0, i as int)),
            decreases names.len() - i,
        {
            let name = names[i].as_str();
            proof {
                assert(dv.subrange(0, i + 1).drop_last() =~= dv.subrange(0, i as int));
                assert(dv.subrange(0, i + 1).last() == name@);
            }
            if is_metadata_file(name) {
                let path = join(self.resource_path(), name);
                let ghost before = r.deep_view();
                r.push(path);
                assert(r.deep_view() =~= before.push(path@));
            }
            i = i + 1;
        }
        assert(dv.subrange(0, names.len() as int) =~= dv);
        r
    }
}

/// Assembles the catalog from the records read from the metadata files, in
/// order: every record where all reads succeeded, else the error of the first
/// read that failed.
pub fn collect_resources(results: Vec<Result<Resource, Error>>) -> (r: Result<
    Vec<Resource>,
    Error,
>)
    ensures
        r is Ok <==> all_read(results@),
        r matches Ok(v) ==> v@.len() == results@.len() && forall|i: int|
            0 <= i < v@.len() ==> results@[i] == Ok::<Resource, Error>(v@[i]),
        r matches Err(e) ==> first_failure(results@, e),
{
    let ghost all = results@;
    let mut out: Vec<Resource> = Vec::new();
    for item in it: results
        invariant
            it.seq() == all,
            out@.len() == it.index(),
            forall|j: int| 0 <= j < it.index() ==> all[j] == Ok::<Resource, Error>(out@[j]),
    {
        match item {
            Ok(res) => out.push(res),
            Err(e) => {
                assert(all[it.index() as int] == Err::<Resource, Error>(e));
                return Err(e);
            },
        }
    }
    Ok(out)
}

} // verus!
