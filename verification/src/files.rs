//! The file-store capability.
//!
//! Write commands may reference files whose contents are written to device
//! memory, and validation must know whether a referenced file exists and how
//! long it is.  Both are asked of a [`FileSource`]: an abstract, read-only
//! view of a set of named files.  [`MemFileSource`] is an in-memory
//! implementation, used wherever no real file system is wanted.

use vstd::prelude::*;

verus! {

/// Read-only access to a set of named files.
pub trait FileSource {
    /// The files offered, by name.
    open spec fn files(&self) -> Map<Seq<char>, Seq<u8>> {
        Map::empty()
    }

    /// Length in bytes of the named file, or `None` when it does not exist.
    fn file_len(&self, path: &str) -> (r: Option<u64>)
        ensures
            match r {
                Some(n) => self.files().contains_key(path@) && n == self.files()[path@].len(),
                None => !self.files().contains_key(path@),
            },
    ;

    /// Contents of the named file, or `None` when it does not exist.
    fn read_file(&self, path: &str) -> (r: Option<Vec<u8>>)
        ensures
            match r {
                Some(v) => self.files().contains_key(path@) && v@ == self.files()[path@],
                None => !self.files().contains_key(path@),
            },
    ;
}

/// The file map denoted by a list of name/content entries; a later entry
/// shadows an earlier one of the same name.
pub open spec fn entries_map(s: Seq<(String, Vec<u8>)>) -> Map<Seq<char>, Seq<u8>>
    decreases s.len(),
{
    if s.len() == 0 {
        Map::empty()
    } else {
        entries_map(s.drop_last()).insert(s.last().0@, s.last().1@)
    }
}

/// An entry list with no match for `k` from position `i` on denotes, at `k`,
/// what its prefix of length `i` denotes.
proof fn lemma_entries_map_unmatched(s: Seq<(String, Vec<u8>)>, i: int, k: Seq<char>)
    requires
        0 <= i <= s.len(),
        forall|j: int| i <= j < s.len() ==> (#[trigger] s[j].0)@ != k,
    ensures
        entries_map(s).contains_key(k) == entries_map(s.take(i)).contains_key(k),
        entries_map(s).contains_key(k) ==> entries_map(s)[k] == entries_map(s.take(i))[k],
    decreases s.len(),
{
    if i < s.len() {
        assert(s.last() == s[s.len() - 1]);
        assert(s.drop_last().take(i) =~= s.take(i));
        lemma_entries_map_unmatched(s.drop_last(), i, k);
    } else {
        assert(s.take(i) =~= s);
    }
}

/// An in-memory file store.
pub struct MemFileSource {
    entries: Vec<(String, Vec<u8>)>,
}

impl MemFileSource {
    /// An empty store.
    pub fn new() -> (r: MemFileSource)
        ensures
            r.files() == Map::<Seq<char>, Seq<u8>>::empty(),
    {
        MemFileSource { entries: Vec::new() }
    }

    /// Adds (or replaces) the file called `name`.
    pub fn add_file(&mut self, name: String, content: Vec<u8>)
        ensures
            final(self).files() == old(self).files().insert(name@, content@),
    {
        let ghost old_entries = self.entries@;
        let ghost n = name@;
        let ghost c = content@;
        self.entries.push((name, content));
        proof {
            assert(self.entries@.drop_last() =~= old_entries);
            assert(self.entries@.last().0@ == n && self.entries@.last().1@ == c);
        }
    }

    /// Position of the last entry called `path`, or the entry count when the
    /// store holds no such file.
    fn lookup(&self, path: &str) -> (r: usize)
        ensures
            r <= self.entries@.len(),
            r < self.entries@.len() ==> (self.files().contains_key(path@)
                && self.entries@[r as int].0@ == path@
                && self.files()[path@] == self.entries@[r as int].1@),
            r == self.entries@.len() ==> !self.files().contains_key(path@),
    {
        let key: String = path.to_owned();
        let n = self.entries.len();
        let mut i = n;
        while i > 0
            invariant
                i <= n == self.entries@.len(),
                key@ == path@,
                forall|j: int| i <= j < n ==> (#[trigger] self.entries@[j].0)@ != path@,
            decreases i,
        {
            i = i - 1;
            if self.entries[i].0 == key {
                proof {
                    let s = self.entries@;
                    lemma_entries_map_unmatched(s, i + 1, path@);
                    assert(s.take(i + 1).drop_last() =~= s.take(i as int));
                    assert(s.take(i + 1).last() == s[i as int]);
                }
                return i;
            }
        }
        proof {
            lemma_entries_map_unmatched(self.entries@, 0, path@);
            assert(self.entries@.take(0) =~= Seq::<(String, Vec<u8>)>::empty());
        }
        n
    }
}

impl FileSource for MemFileSource {
    closed spec fn files(&self) -> Map<Seq<char>, Seq<u8>> {
        entries_map(self.entries@)
    }

    fn file_len(&self, path: &str) -> (r: Option<u64>) {
        let i = self.lookup(path);
        if i < self.entries.len() {
            Some(self.entries[i].1.len() as u64)
        } else {
            None
        }
    }

    fn read_file(&self, path: &str) -> (r: Option<Vec<u8>>) {
        let i = self.lookup(path);
        if i < self.entries.len() {
            let mut out: Vec<u8> = Vec::new();
            let content = &self.entries[i].1;
            let m = content.len();
            let mut j: usize = 0;
            while j < m
                invariant
                    j <= m == content@.len(),
                    out@ =~= content@.take(j as int),
                decreases m - j,
            {
                out.push(content[j]);
                j = j + 1;
            }
            proof {
                assert(content@.take(m as int) =~= content@);
            }
            Some(out)
        } else {
            None
        }
    }
}

} // verus!
