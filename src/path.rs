//! Paths as sequences of components, so that equality and prefix tests are
//! exact component comparisons rather than raw string comparisons.

use vstd::prelude::*;

verus! {

/// A filesystem path held as its components, in order. An absolute path
/// starts with the root component `/`.
pub struct RepoPath {
    pub parts: Vec<String>,
}

/// The components of a path as character sequences.
pub open spec fn components(parts: Seq<String>) -> Seq<Seq<char>> {
    parts.map_values(|s: String| s@)
}

/// Whether `base` is a component-wise prefix of `p`: `/a/b` is under `/a`
/// and under itself, `/a/bb` is not under `/a/b`.
pub open spec fn is_under(p: Seq<Seq<char>>, base: Seq<Seq<char>>) -> bool {
    base.len() <= p.len() && p.subrange(0, base.len() as int) == base
}

impl View for RepoPath {
    type V = Seq<Seq<char>>;

    open spec fn view(&self) -> Seq<Seq<char>> {
        components(self.parts@)
    }
}

impl RepoPath {
    /// A path made of the given components.
    pub fn new(parts: Vec<String>) -> (r: RepoPath)
        ensures
            r@ == components(parts@),
    {
        RepoPath { parts }
    }

    /// Whether the two paths have exactly the same components.
    pub fn same_as(&self, other: &RepoPath) -> (r: bool)
        ensures
            r == (self@ == other@),
    {
        if self.parts.len() != other.parts.len() {
            assert(self@.len() != other@.len());
            return false;
        }
        let n = self.parts.len();
        let mut i: usize = 0;
        while i < n
            invariant
                n == self.parts.len(),
                n == other.parts.len(),
                i <= n,
                forall|j: int| 0 <= j < i ==> self@[j] == other@[j],
            decreases n - i,
        {
            if !(self.parts[i] == other.parts[i]) {
                assert(self@[i as int] != other@[i as int]);
                return false;
            }
            i = i + 1;
        }
        assert(self@ =~= other@);
        true
    }

    /// Whether `base` is a component-wise prefix of this path.
    pub fn starts_with(&self, base: &RepoPath) -> (r: bool)
        ensures
            r == is_under(self@, base@),
    {
        if base.parts.len() > self.parts.len() {
            return false;
        }
        let n = base.parts.len();
        let mut i: usize = 0;
        while i < n
            invariant
                n == base.parts.len(),
                n <= self.parts.len(),
                i <= n,
                forall|j: int| 0 <= j < i ==> self@[j] == base@[j],
            decreases n - i,
        {
            if !(self.parts[i] == base.parts[i]) {
                assert(self@.subrange(0, n as int)[i as int] != base@[i as int]);
                return false;
            }
            i = i + 1;
        }
        assert(self@.subrange(0, n as int) =~= base@);
        true
    }

    /// This path followed by the components of `rel`.
    pub fn join(&self, rel: &RepoPath) -> (r: RepoPath)
        ensures
            r@ == self@ + rel@,
    {
        let mut out: Vec<String> = Vec::new();
        let mut i: usize = 0;
        while i < self.parts.len()
            invariant
                i <= self.parts.len(),
                out.len() == i,
                forall|j: int| 0 <= j < i ==> out@[j]@ == self@[j],
            decreases self.parts.len() - i,
        {
            out.push(self.parts[i].clone());
            i = i + 1;
        }
        let mut k: usize = 0;
        while k < rel.parts.len()
            invariant
                k <= rel.parts.len(),
                out.len() == self.parts.len() + k,
                forall|j: int| 0 <= j < self.parts.len() ==> out@[j]@ == self@[j],
                forall|j: int| 0 <= j < k ==> out@[self.parts.len() + j]@ == rel@[j],
            decreases rel.parts.len() - k,
        {
            out.push(rel.parts[k].clone());
            k = k + 1;
        }
        let r = RepoPath { parts: out };
        assert(r@ =~= self@ + rel@);
        r
    }
}

} // verus!
