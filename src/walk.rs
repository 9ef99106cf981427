use vstd::prelude::*;
use crate::path::DirPath;

verus! {

/// A top-level shard directory named `1` or `2`.
pub open spec fn short_shard_spec(name: Seq<char>) -> bool {
    name =~= seq!['1'] || name =~= seq!['2']
}

/// Whether a top-level shard directory holds package directories directly:
/// `1` and `2` hold the packages of one and two characters; any other holds
/// a second level of two-character prefixes first.
pub fn is_short_shard(name: &str) -> (r: bool)
    ensures
        r == short_shard_spec(name@),
{
    let n = name.unicode_len();
    if n != 1 {
        assert(!(name@ =~= seq!['1']) && !(name@ =~= seq!['2']));
        return false;
    }
    let c = name.get_char(0);
    c == '1' || c == '2'
}

/// What the subdirectories of a directory of the source index are.
#[derive(PartialEq, Eq, Structural, Clone, Copy)]
pub enum Level {
    /// The index root: its subdirectories are shards.
    Root,
    /// The shard `1` or `2`: its subdirectories are packages.
    ShortShard,
    /// A shard of a two-character prefix: its subdirectories are prefixes.
    LongShard,
    /// A second prefix: its subdirectories are packages.
    Prefix,
}

/// Whether the subdirectories at a level are packages.
pub open spec fn holds_packages(level: Level) -> bool {
    level == Level::ShortShard || level == Level::Prefix
}

/// The level of a subdirectory `name` of a directory at `level`.
pub open spec fn child_level(level: Level, name: Seq<char>) -> Level {
    match level {
        Level::Root => if short_shard_spec(name) { Level::ShortShard } else { Level::LongShard },
        _ => Level::Prefix,
    }
}

/// How many components below the index root a level lies.
pub open spec fn depth(level: Level) -> nat {
    match level {
        Level::Root => 0,
        Level::ShortShard => 1,
        Level::LongShard => 1,
        Level::Prefix => 2,
    }
}

/// The components of `src` below `root`.
pub open spec fn rel(src: Seq<Seq<char>>, root: Seq<Seq<char>>) -> Seq<Seq<char>> {
    src.subrange(root.len() as int, src.len() as int)
}

/// `src` lies below `in_root`, and `dest` lies below `out_root` with the
/// same components.
pub open spec fn mirrors(
    src: Seq<Seq<char>>,
    dest: Seq<Seq<char>>,
    in_root: Seq<Seq<char>>,
    out_root: Seq<Seq<char>>,
) -> bool {
    &&& in_root.len() <= src.len()
    &&& src == in_root + rel(src, in_root)
    &&& dest == out_root + rel(src, in_root)
}

/// A directory waiting to be listed, as a view: where it is in the source
/// tree, where it goes in the destination tree, and its level.
pub type EntryView = (Seq<Seq<char>>, Seq<Seq<char>>, Level);

/// A directory to list sits where its level says, in step with its
/// destination.
pub open spec fn entry_ok(in_root: Seq<Seq<char>>, out_root: Seq<Seq<char>>, e: EntryView) -> bool {
    let r = rel(e.0, in_root);
    &&& mirrors(e.0, e.1, in_root, out_root)
    &&& r.len() == depth(e.2)
    &&& e.2 == Level::ShortShard ==> short_shard_spec(r[0])
    &&& (e.2 == Level::LongShard || e.2 == Level::Prefix) ==> !short_shard_spec(r[0])
}

/// A package found at `src` going to `dest`, named `name`: two levels below
/// the root under `1` or `2`, three under any other shard, in step with its
/// destination.
pub open spec fn package_ok(
    in_root: Seq<Seq<char>>,
    out_root: Seq<Seq<char>>,
    name: Seq<char>,
    src: Seq<Seq<char>>,
    dest: Seq<Seq<char>>,
) -> bool {
    let r = rel(src, in_root);
    &&& mirrors(src, dest, in_root, out_root)
    &&& r.len() == 2 ==> short_shard_spec(r[0])
    &&& r.len() == 3 ==> !short_shard_spec(r[0])
    &&& (r.len() == 2 || r.len() == 3)
    &&& r.last() == name
}

/// A directory of the source index waiting to be listed.
pub struct DirEntry {
    pub source: DirPath,
    pub dest: DirPath,
    pub level: Level,
}

/// The view of a directory waiting to be listed.
pub open spec fn entry_view(e: DirEntry) -> EntryView {
    (e.source@, e.dest@, e.level)
}

/// One package found by the walk: its name, its source directory, and the
/// destination directory of its metadata.
pub struct PackageJob {
    pub name: String,
    pub source: DirPath,
    pub dest: DirPath,
}

/// Walking a step further keeps a path in step with its destination.
proof fn lemma_push_mirrors(
    src: Seq<Seq<char>>,
    dest: Seq<Seq<char>>,
    in_root: Seq<Seq<char>>,
    out_root: Seq<Seq<char>>,
    n: Seq<char>,
)
    requires
        mirrors(src, dest, in_root, out_root),
    ensures
        mirrors(src.push(n), dest.push(n), in_root, out_root),
        rel(src.push(n), in_root) == rel(src, in_root).push(n),
{
    assert(rel(src.push(n), in_root) =~= rel(src, in_root).push(n));
    assert(src.push(n) =~= in_root + rel(src, in_root).push(n));
    assert(dest.push(n) =~= out_root + rel(src, in_root).push(n));
}

/// The walk of a sharded source index: it hands out the directories to list,
/// one at a time, and from each listing takes either the directories to list
/// next or the packages found, each with the destination directory that
/// mirrors its source directory.
pub struct Walker {
    in_root: DirPath,
    out_root: DirPath,
    pending: Vec<DirEntry>,
    current: Option<DirEntry>,
}

impl Walker {
    /// The root of the source index.
    pub closed spec fn spec_in_root(&self) -> Seq<Seq<char>> {
        self.in_root@
    }

    /// The root of the destination tree.
    pub closed spec fn spec_out_root(&self) -> Seq<Seq<char>> {
        self.out_root@
    }

    /// The directories waiting to be listed; the last is listed first.
    pub closed spec fn spec_pending(&self) -> Seq<EntryView> {
        self.pending@.map_values(|e: DirEntry| entry_view(e))
    }

    /// The directory handed out and whose listing is awaited, if any.
    pub closed spec fn spec_current(&self) -> Option<EntryView> {
        match self.current {
            Some(e) => Some(entry_view(e)),
            None => None,
        }
    }

    /// Every directory waiting or handed out sits where its level says.
    pub open spec fn wf(&self) -> bool {
        &&& forall|i: int| 0 <= i < self.spec_pending().len()
            ==> entry_ok(self.spec_in_root(), self.spec_out_root(), #[trigger] self.spec_pending()[i])
        &&& self.spec_current() is Some ==> entry_ok(self.spec_in_root(), self.spec_out_root(), self.spec_current().unwrap())
    }

    /// A walk of the index at `in_root` into the tree at `out_root`, which
    /// first lists the index root.
    pub fn new(in_root: DirPath, out_root: DirPath) -> (r: Walker)
        ensures
            r.wf(),
            r.spec_in_root() == in_root@,
            r.spec_out_root() == out_root@,
            r.spec_pending() == seq![(in_root@, out_root@, Level::Root)],
            r.spec_current() is None,
    {
        let root = DirEntry { source: in_root.duplicate(), dest: out_root.duplicate(), level: Level::Root };
        let mut pending: Vec<DirEntry> = Vec::new();
        pending.push(root);
        let r = Walker { in_root, out_root, pending, current: None };
        assert(rel(in_root@, in_root@) =~= Seq::<Seq<char>>::empty());
        assert(in_root@ =~= in_root@ + rel(in_root@, in_root@));
        assert(out_root@ =~= out_root@ + rel(in_root@, in_root@));
        assert(r.spec_pending() =~= seq![(in_root@, out_root@, Level::Root)]);
        r
    }

    /// The next directory to list, or `None` when the walk is over.
    pub fn next_dir(&mut self) -> (r: Option<DirPath>)
        requires
            old(self).wf(),
        ensures
            final(self).wf(),
            final(self).spec_in_root() == old(self).spec_in_root(),
            final(self).spec_out_root() == old(self).spec_out_root(),
            old(self).spec_pending().len() == 0 ==> r is None && final(self).spec_current() is None
                && final(self).spec_pending() == old(self).spec_pending(),
            old(self).spec_pending().len() > 0 ==> r is Some
                && r.unwrap()@ == old(self).spec_pending().last().0
                && final(self).spec_current() == Some(old(self).spec_pending().last())
                && final(self).spec_pending() == old(self).spec_pending().drop_last(),
    {
        let ghost before = self.pending@;
        match self.pending.pop() {
            None => {
                self.current = None;
                None
            },
            Some(e) => {
                let p = e.source.duplicate();
                self.current = Some(e);
                assert(self.pending@ =~= before.drop_last());
                assert(self.spec_pending() =~= old(self).spec_pending().drop_last());
                assert(entry_view(e) == old(self).spec_pending()[before.len() - 1]);
                Some(p)
            },
        }
    }

    /// Takes in the names of the subdirectories of the directory handed out
    /// last. Under `1`, `2` and the second prefixes they are packages, which
    /// come back in order; elsewhere they are directories to list later.
    pub fn listed(&mut self, names: Vec<String>) -> (r: Vec<PackageJob>)
        requires
            old(self).wf(),
            old(self).spec_current() is Some,
        ensures
            final(self).wf(),
            final(self).spec_in_root() == old(self).spec_in_root(),
            final(self).spec_out_root() == old(self).spec_out_root(),
            final(self).spec_current() is None,
            ({
                let c = old(self).spec_current().unwrap();
                &&& holds_packages(c.2) ==> {
                    &&& final(self).spec_pending() == old(self).spec_pending()
                    &&& r@.len() == names@.len()
                    &&& forall|i: int| 0 <= i < r@.len() ==> {
                        &&& (#[trigger] r@[i]).name@ == names@[i]@
                        &&& r@[i].source@ == c.0.push(names@[i]@)
                        &&& r@[i].dest@ == c.1.push(names@[i]@)
                        &&& package_ok(old(self).spec_in_root(), old(self).spec_out_root(), r@[i].name@, r@[i].source@, r@[i].dest@)
                    }
                }
                &&& !holds_packages(c.2) ==> {
                    &&& r@.len() == 0
                    &&& final(self).spec_pending().len() == old(self).spec_pending().len() + names@.len()
                    &&& final(self).spec_pending().subrange(0, old(self).spec_pending().len() as int) == old(self).spec_pending()
                    &&& forall|i: int| 0 <= i < names@.len() ==>
                        #[trigger] final(self).spec_pending()[old(self).spec_pending().len() + i]
                            == (c.0.push(names@[i]@), c.1.push(names@[i]@), child_level(c.2, names@[i]@))
                }
            }),
    {
        let c = self.current.take().unwrap();
        let ghost cv = entry_view(c);
        let ghost inr = self.in_root@;
        let ghost outr = self.out_root@;
        let ghost before = self.spec_pending();
        assert(before == old(self).spec_pending());
        assert forall|j: int| 0 <= j < before.len() implies entry_ok(inr, outr, #[trigger] before[j]) by {
            assert(entry_ok(old(self).spec_in_root(), old(self).spec_out_root(), old(self).spec_pending()[j]));
        }
        let mut jobs: Vec<PackageJob> = Vec::new();
        let packages = c.level == Level::ShortShard || c.level == Level::Prefix;
        let mut i: usize = 0;
        while i < names.len()
            invariant
                i <= names@.len(),
                cv == entry_view(c),
                entry_ok(inr, outr, cv),
                inr == self.in_root@,
                outr == self.out_root@,
                self.current is None,
                packages == holds_packages(cv.2),
                packages ==> self.spec_pending() == before,
                packages ==> jobs@.len() == i,
                packages ==> forall|j: int| 0 <= j < i ==> {
                    &&& (#[trigger] jobs@[j]).name@ == names@[j]@
                    &&& jobs@[j].source@ == cv.0.push(names@[j]@)
                    &&& jobs@[j].dest@ == cv.1.push(names@[j]@)
                    &&& package_ok(inr, outr, jobs@[j].name@, jobs@[j].source@, jobs@[j].dest@)
                },
                !packages ==> jobs@.len() == 0,
                !packages ==> self.spec_pending().len() == before.len() + i,
                !packages ==> self.spec_pending().subrange(0, before.len() as int) == before,
                !packages ==> forall|j: int| 0 <= j < i ==>
                    #[trigger] self.spec_pending()[before.len() + j]
                        == (cv.0.push(names@[j]@), cv.1.push(names@[j]@), child_level(cv.2, names@[j]@)),
                forall|j: int| 0 <= j < self.spec_pending().len()
                    ==> entry_ok(inr, outr, #[trigger] self.spec_pending()[j]),
            decreases names@.len() - i,
        {
            let name = names[i].as_str();
            let source = c.source.join(name);
            let dest = c.dest.join(name);
            proof {
                lemma_push_mirrors(cv.0, cv.1, inr, outr, name@);
            }
            if packages {
                let job = PackageJob { name: names[i].clone(), source, dest };
                proof {
                    let r = rel(cv.0.push(name@), inr);
                    assert(r.last() == name@);
                    assert(r[0] == rel(cv.0, inr)[0]);
                }
                jobs.push(job);
            } else {
                let level = if c.level == Level::Root {
                    if is_short_shard(name) { Level::ShortShard } else { Level::LongShard }
                } else {
                    Level::Prefix
                };
                let ghost pv = self.spec_pending();
                let e = DirEntry { source, dest, level };
                self.pending.push(e);
                proof {
                    let r = rel(cv.0.push(name@), inr);
                    if cv.2 == Level::LongShard {
                        assert(r[0] == rel(cv.0, inr)[0]);
                    }
                    assert(self.spec_pending() =~= pv.push(entry_view(e)));
                    assert(self.spec_pending().subrange(0, before.len() as int) =~= before);
                }
            }
            i = i + 1;
        }
        jobs
    }
}

} // verus!
