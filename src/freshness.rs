use vstd::prelude::*;
use crate::model::{known_versions, version_numbers, CrateMetadata};

verus! {

/// What reading a package's cached metadata file gave.
pub enum CacheLookup {
    /// No file yet: the package was never fetched.
    Missing,
    /// A file is there but could not be opened or parsed.
    Unreadable,
    /// The file held this record.
    Parsed(CrateMetadata),
}

/// Every local version is among the known ones.
pub open spec fn fresh_spec(known: Seq<Seq<char>>, local: Seq<Seq<char>>) -> bool {
    forall|i: int| 0 <= i < local.len() ==> known.contains(#[trigger] local[i])
}

/// Whether a cache lookup and the listing of the package's source
/// directory (`None` where it could not be listed) leave the cache fresh.
pub open spec fn cache_fresh_spec(cache: CacheLookup, local: Option<Seq<Seq<char>>>) -> bool {
    match cache {
        CacheLookup::Parsed(meta) => local.is_some() && fresh_spec(version_numbers(meta), local.unwrap()),
        _ => false,
    }
}

/// The views of a list of strings.
pub open spec fn views(v: Seq<String>) -> Seq<Seq<char>> {
    v.map_values(|s: String| s@)
}

/// True when every version directory of the source index is among the
/// versions that the cached record knows of.
pub fn is_fresh(known: &Vec<String>, local: &Vec<String>) -> (r: bool)
    ensures
        r == fresh_spec(views(known@), views(local@)),
{
    let mut i: usize = 0;
    while i < local.len()
        invariant
            i <= local@.len(),
            forall|j: int| 0 <= j < i ==> views(known@).contains(#[trigger] views(local@)[j]),
        decreases local@.len() - i,
    {
        let mut found = false;
        let mut k: usize = 0;
        while k < known.len()
            invariant
                i < local@.len(),
                k <= known@.len(),
                found ==> views(known@).contains(views(local@)[i as int]),
                !found ==> forall|m: int| 0 <= m < k ==> known@[m]@ != local@[i as int]@,
            decreases known@.len() - k,
        {
            if known[k] == local[i] {
                found = true;
                assert(views(known@)[k as int] == views(local@)[i as int]);
            }
            k = k + 1;
        }
        if !found {
            assert(!views(known@).contains(views(local@)[i as int])) by {
                if views(known@).contains(views(local@)[i as int]) {
                    let m = choose|m: int| 0 <= m < views(known@).len() && views(known@)[m] == views(local@)[i as int];
                    assert(known@[m]@ == local@[i as int]@);
                }
            }
            return false;
        }
        i = i + 1;
    }
    true
}

/// Whether the cached metadata of a package is up to date: only a record
/// that was read, beside a source directory that was listed, can be fresh,
/// and then when it knows every version directory of the source index.
pub fn check_metadata_file(cache: &CacheLookup, local: &Option<Vec<String>>) -> (r: bool)
    ensures
        r == cache_fresh_spec(*cache, match local { Some(v) => Some(views(v@)), None => None }),
{
    match cache {
        CacheLookup::Parsed(meta) => {
            match local {
                Some(dirs) => {
                    let known = known_versions(meta);
                    is_fresh(&known, dirs)
                },
                None => false,
            }
        },
        _ => false,
    }
}

/// A version directory that the cached record does not know of makes the
/// cache stale, whatever else the source index holds.
pub proof fn lemma_new_version_is_stale(known: Seq<Seq<char>>, local: Seq<Seq<char>>, v: Seq<char>)
    requires
        !known.contains(v),
    ensures
        !fresh_spec(known, local.push(v)),
{
    assert(local.push(v)[local.len() as int] == v);
}

/// Fresh before, and one new version directory: stale exactly when the new
/// version is unknown to the record.
pub proof fn lemma_fresh_after_push(known: Seq<Seq<char>>, local: Seq<Seq<char>>, v: Seq<char>)
    requires
        fresh_spec(known, local),
    ensures
        fresh_spec(known, local.push(v)) == known.contains(v),
{
    if known.contains(v) {
        assert forall|i: int| 0 <= i < local.push(v).len() implies known.contains(#[trigger] local.push(v)[i]) by {
            if i < local.len() {
                assert(local.push(v)[i] == local[i]);
            }
        }
    } else {
        lemma_new_version_is_stale(known, local, v);
    }
}

} // verus!
