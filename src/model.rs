use vstd::prelude::*;

verus! {

/// One published version of a package, as the registry lists it.
pub struct Version {
    pub id: u64,
    pub num: String,
}

impl Version {
    /// A version with the registry's identifier and its number.
    pub fn new(id: u64, num: String) -> (r: Version)
        ensures
            r.id == id,
            r.num == num,
    {
        Version { id, num }
    }

    /// The text form of a version: its number.
    pub fn to_string(&self) -> (r: String)
        ensures
            r@ == self.num@,
    {
        self.num.clone()
    }
}

/// What the registry says of a package itself.
pub struct Crate {
    pub created_at: String,
    pub description: Option<String>,
    pub documentation: Option<String>,
    pub downloads: u64,
    pub homepage: Option<String>,
    pub id: String,
    pub keywords: Vec<String>,
    pub license: Option<String>,
    pub max_version: String,
    pub name: String,
    pub repository: Option<String>,
    pub updated_at: String,
}

/// One package's cached metadata: the package and every version the
/// registry knew of when it was fetched.
pub struct CrateMetadata {
    pub crate_data: Crate,
    pub versions: Vec<Version>,
}

/// The version numbers of a metadata record, in its order.
pub open spec fn version_numbers(meta: CrateMetadata) -> Seq<Seq<char>> {
    meta.versions@.map_values(|v: Version| v.num@)
}

/// The version numbers that a metadata record knows of, in its order.
pub fn known_versions(meta: &CrateMetadata) -> (r: Vec<String>)
    ensures
        r@.map_values(|s: String| s@) == version_numbers(*meta),
{
    let mut r: Vec<String> = Vec::new();
    let mut i: usize = 0;
    while i < meta.versions.len()
        invariant
            i <= meta.versions@.len(),
            r@.len() == i,
            forall|j: int| 0 <= j < i ==> r@[j]@ == meta.versions@[j].num@,
        decreases meta.versions@.len() - i,
    {
        r.push(meta.versions[i].num.clone());
        i = i + 1;
    }
    assert(r@.map_values(|s: String| s@) =~= version_numbers(*meta));
    r
}

} // verus!
