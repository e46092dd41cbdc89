use vstd::prelude::*;
use vstd::string::StringExecFns;

verus! {

/// One permission of the filesystem scope: a directory and whether its
/// subdirectories are covered too.
pub struct ScopeEntry {
    pub path: String,
    pub recursive: bool,
}

impl View for ScopeEntry {
    type V = (Seq<char>, bool);

    open spec fn view(&self) -> (Seq<char>, bool) {
        (self.path@, self.recursive)
    }
}

impl ScopeEntry {
    /// A copy of this entry.
    pub fn duplicate(&self) -> (r: ScopeEntry)
        ensures
            r@ == self@,
    {
        ScopeEntry { path: self.path.clone(), recursive: self.recursive }
    }
}

/// The allow-list of directories that the application may reach on disk.
/// Each permission is held once, in the order in which it was granted.
pub struct FsScope {
    entries: Vec<ScopeEntry>,
}

/// The views of a list of entries, in order.
pub open spec fn entry_views(s: Seq<ScopeEntry>) -> Seq<(Seq<char>, bool)> {
    s.map_values(|e: ScopeEntry| e@)
}

impl View for FsScope {
    type V = Set<(Seq<char>, bool)>;

    closed spec fn view(&self) -> Set<(Seq<char>, bool)> {
        entry_views(self.entries@).to_set()
    }
}

impl FsScope {
    /// No permission is held twice.
    pub closed spec fn wf(&self) -> bool {
        entry_views(self.entries@).no_duplicates()
    }

    /// A scope that permits nothing.
    pub fn new() -> (r: FsScope)
        ensures
            r.wf(),
            r@ == Set::<(Seq<char>, bool)>::empty(),
    {
        let r = FsScope { entries: Vec::new() };
        assert(r@ =~= Set::<(Seq<char>, bool)>::empty());
        r
    }

    /// Permits `path`, with its subdirectories when `recursive` holds.
    /// Granting a permission that is already held changes nothing.
    pub fn allow_directory(&mut self, path: &str, recursive: bool)
        requires
            old(self).wf(),
        ensures
            final(self).wf(),
            final(self)@ == old(self)@.insert((path@, recursive)),
    {
        let p = String::from_str(path);
        let n = self.entries.len();
        let mut i: usize = 0;
        while i < n
            invariant
                n == self.entries@.len(),
                0 <= i <= n,
                *self == *old(self),
                self.wf(),
                p@ == path@,
                forall|j: int| 0 <= j < i ==> entry_views(self.entries@)[j] != (path@, recursive),
            decreases n - i,
        {
            if self.entries[i].recursive == recursive && self.entries[i].path == p {
                proof {
                    assert(entry_views(self.entries@)[i as int] == (path@, recursive));
                    assert(self@ =~= old(self)@.insert((path@, recursive)));
                }
                return;
            }
            i = i + 1;
        }
        let ghost before = entry_views(self.entries@);
        self.entries.push(ScopeEntry { path: p, recursive });
        proof {
            let x = (path@, recursive);
            let after = entry_views(self.entries@);
            assert(after =~= before.push(x));
            assert(!before.contains(x)) by {
                if before.contains(x) {
                    let k = choose|k: int| 0 <= k < before.len() && before[k] == x;
                    assert(before[k] != x);
                }
            }
            before.lemma_push_to_set_commute(x);
            assert forall|a: int, b: int| 0 <= a < after.len() && 0 <= b < after.len() && a != b
                implies after[a] != after[b] by {
                if a < before.len() && b < before.len() {
                } else if a < before.len() {
                    assert(before.contains(before[a]));
                } else {
                    assert(before.contains(before[b]));
                }
            }
        }
    }

    /// Whether `path` is permitted with exactly this `recursive` flag.
    pub fn is_allowed(&self, path: &str, recursive: bool) -> (r: bool)
        ensures
            r == self@.contains((path@, recursive)),
    {
        let p = String::from_str(path);
        let n = self.entries.len();
        let mut i: usize = 0;
        while i < n
            invariant
                n == self.entries@.len(),
                0 <= i <= n,
                p@ == path@,
                forall|j: int| 0 <= j < i ==> entry_views(self.entries@)[j] != (path@, recursive),
            decreases n - i,
        {
            if self.entries[i].recursive == recursive && self.entries[i].path == p {
                assert(entry_views(self.entries@)[i as int] == (path@, recursive));
                return true;
            }
            i = i + 1;
        }
        false
    }

    /// The permissions held, each once.
    pub fn allowed(&self) -> (r: Vec<ScopeEntry>)
        requires
            self.wf(),
        ensures
            entry_views(r@).no_duplicates(),
            entry_views(r@).to_set() == self@,
    {
        let n = self.entries.len();
        let mut r: Vec<ScopeEntry> = Vec::new();
        let mut i: usize = 0;
        while i < n
            invariant
                n == self.entries@.len(),
                0 <= i <= n,
                entry_views(r@) == entry_views(self.entries@).subrange(0, i as int),
            decreases n - i,
        {
            let ghost before = entry_views(r@);
            r.push(self.entries[i].duplicate());
            assert(entry_views(r@) =~= before.push(self.entries@[i as int]@));
            assert(entry_views(r@) =~= entry_views(self.entries@).subrange(0, i + 1));
            i = i + 1;
        }
        assert(entry_views(r@) =~= entry_views(self.entries@));
        r
    }
}

} // verus!
