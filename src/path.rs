use vstd::prelude::*;
use vstd::string::*;

verus! {

/// A path as the sequence of its components, from a root chosen by the caller.
pub struct DirPath {
    parts: Vec<String>,
}

impl View for DirPath {
    type V = Seq<Seq<char>>;

    closed spec fn view(&self) -> Seq<Seq<char>> {
        self.parts@.map_values(|s: String| s@)
    }
}

impl DirPath {
    /// The empty path.
    pub fn new() -> (r: DirPath)
        ensures
            r@ == Seq::<Seq<char>>::empty(),
    {
        let r = DirPath { parts: Vec::new() };
        assert(r@ =~= Seq::<Seq<char>>::empty());
        r
    }

    /// The path made of the given components, in order.
    pub fn from_parts(parts: Vec<String>) -> (r: DirPath)
        ensures
            r@ == parts@.map_values(|s: String| s@),
    {
        DirPath { parts }
    }

    /// The number of components.
    pub fn len(&self) -> (r: usize)
        ensures
            r == self@.len(),
    {
        self.parts.len()
    }

    /// The component at position `i`.
    pub fn component(&self, i: usize) -> (r: String)
        requires
            i < self@.len(),
        ensures
            r@ == self@[i as int],
    {
        self.parts[i].clone()
    }

    /// The final component, if there is one.
    pub fn file_name(&self) -> (r: Option<String>)
        ensures
            self@.len() == 0 ==> r.is_none(),
            self@.len() > 0 ==> r.is_some() && r.unwrap()@ == self@.last(),
    {
        let n = self.parts.len();
        if n == 0 {
            None
        } else {
            Some(self.parts[n - 1].clone())
        }
    }

    /// A path equal to this one.
    pub fn duplicate(&self) -> (r: DirPath)
        ensures
            r@ == self@,
    {
        let mut parts: Vec<String> = Vec::new();
        let mut i: usize = 0;
        while i < self.parts.len()
            invariant
                i <= self.parts@.len(),
                parts@ =~= self.parts@.subrange(0, i as int),
            decreases self.parts@.len() - i,
        {
            parts.push(self.parts[i].clone());
            i = i + 1;
        }
        assert(parts@ =~= self.parts@);
        DirPath { parts }
    }

    /// This path with one more component at its end.
    pub fn join(&self, name: &str) -> (r: DirPath)
        ensures
            r@ == self@.push(name@),
    {
        let mut r = self.duplicate();
        let ghost before = r.parts@;
        let last = String::from_str(name);
        r.parts.push(last);
        assert(r.parts@ =~= before.push(last));
        assert(r@ =~= self@.push(name@)) by {
            assert forall|j: int| 0 <= j < r@.len() implies r@[j] == self@.push(name@)[j] by {
                if j < self@.len() {
                    assert(r.parts@[j] == before[j]);
                }
            }
        }
        r
    }
}

/// Grows `path` by the final component of `currentpath`: the destination
/// tree is built in step with the source tree, one level at a time.
pub fn build_new_path(path: &DirPath, currentpath: &DirPath) -> (r: DirPath)
    requires
        currentpath@.len() > 0,
    ensures
        r@ == path@.push(currentpath@.last()),
{
    let dirname = currentpath.file_name().unwrap();
    path.join(dirname.as_str())
}

/// The shard directories of a package name, then the name itself.
pub open spec fn shard_spec(name: Seq<char>) -> Seq<Seq<char>> {
    if name.len() == 1 {
        seq![seq!['1'], name]
    } else if name.len() == 2 {
        seq![seq!['2'], name]
    } else {
        let end = if name.len() < 4 { name.len() } else { 4 };
        seq![name.subrange(0, 2), name.subrange(2, end as int), name]
    }
}

/// Where a package lives below the index root: `1/<name>` or `2/<name>` for
/// names of one or two characters, and otherwise the first two characters,
/// the next two (or the one left), then the name.
pub fn shard_path(name: &str) -> (r: DirPath)
    requires
        name@.len() > 0,
    ensures
        r@ == shard_spec(name@),
{
    let n = name.unicode_len();
    let mut parts: Vec<String> = Vec::new();
    if n <= 2 {
        let level: String = if n == 1 {
            proof {
                reveal_strlit("1");
            }
            let one = String::from_str("1");
            assert(one@ =~= seq!['1']);
            one
        } else {
            proof {
                reveal_strlit("2");
            }
            let two = String::from_str("2");
            assert(two@ =~= seq!['2']);
            two
        };
        parts.push(level);
        assert(parts@.len() == 1 && parts@[0]@ == shard_spec(name@)[0]);
    } else {
        let end: usize = if n < 4 { n } else { 4 };
        parts.push(String::from_str(name.substring_char(0, 2)));
        parts.push(String::from_str(name.substring_char(2, end)));
        assert(parts@.len() == 2 && parts@[0]@ == shard_spec(name@)[0]
            && parts@[1]@ == shard_spec(name@)[1]);
    }
    let whole = String::from_str(name);
    parts.push(whole);
    let r = DirPath { parts };
    assert(r@.len() == shard_spec(name@).len());
    assert(r@ =~= shard_spec(name@)) by {
        assert forall|j: int| 0 <= j < r@.len() implies r@[j] == shard_spec(name@)[j] by {
            assert(r@[j] == r.parts@[j]@);
        }
    }
    r
}

} // verus!
