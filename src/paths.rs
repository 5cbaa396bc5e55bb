use vstd::prelude::*;
use crate::error::SyncError;
use crate::ids::ObjectId;
use crate::rewire::{subtree_id, subtree_of};
use crate::tree::{entries_view, opt_entries_view, TreeEntry};

verus! {

/// A module's place in the central tree: `<group>/<name>`.
pub struct ModulePath {
    pub group: String,
    pub name: String,
}

/// A single path segment: non-empty, without a separator.
pub open spec fn is_segment(s: Seq<char>) -> bool {
    s.len() > 0 && forall|i: int| 0 <= i < s.len() ==> #[trigger] s[i] != '/'
}

/// `p` is `<group>/<name>` with both parts single segments, split at `k`.
pub open spec fn splits_at(p: Seq<char>, k: int) -> bool {
    &&& 0 <= k < p.len()
    &&& p[k] == '/'
    &&& is_segment(p.subrange(0, k))
    &&& is_segment(p.subrange(k + 1, p.len() as int))
}

/// `p` has exactly two non-empty segments.
pub open spec fn is_module_path(p: Seq<char>) -> bool {
    exists|k: int| splits_at(p, k)
}

/// The textual form `<group>/<name>`.
pub open spec fn joined(group: Seq<char>, name: Seq<char>) -> Seq<char> {
    group + seq!['/'] + name
}

/// Name of the top-level directory under which modules are declared.
pub open spec fn modules_dir() -> Seq<char> {
    seq!['m', 'o', 'd', 'u', 'l', 'e', 's']
}

impl ModulePath {
    /// The path as text, `<group>/<name>`.
    pub fn text(&self) -> (r: String)
        ensures
            r@ == joined(self.group@, self.name@),
    {
        let mut r = self.group.clone();
        proof {
            reveal_strlit("/");
        }
        r.append("/");
        r.append(self.name.as_str());
        r
    }
}

proof fn lemma_split_is_first_slash(p: Seq<char>, k: int, j: int)
    requires
        splits_at(p, k),
        0 <= j < p.len(),
        p[j] == '/',
    ensures
        j == k,
{
    if j < k {
        assert(p.subrange(0, k)[j] == p[j]);
    } else if j > k {
        assert(p.subrange(k + 1, p.len() as int)[j - k - 1] == p[j]);
    }
}

/// Splits `<group>/<name>`; anything but exactly two non-empty segments is
/// rejected.
pub fn parse_module_path(p: &str) -> (r: Result<ModulePath, SyncError>)
    ensures
        r is Ok <==> is_module_path(p@),
        r matches Ok(m) ==> p@ == joined(m.group@, m.name@) && is_segment(m.group@)
            && is_segment(m.name@),
        r matches Err(e) ==> e == SyncError::ModulePathConstraintViolation,
{
    let n = p.unicode_len();
    let mut k: usize = 0;
    while k < n && p.get_char(k) != '/'
        invariant
            n == p@.len(),
            k <= n,
            forall|j: int| 0 <= j < k ==> #[trigger] p@[j] != '/',
        decreases n - k,
    {
        k = k + 1;
    }
    if k == n || k == 0 || k + 1 == n {
        proof {
            if is_module_path(p@) {
                let w = choose|w: int| splits_at(p@, w);
                lemma_split_is_first_slash(p@, w, w);
                if k == n {
                    assert(p@[w] != '/');
                } else if k == 0 {
                    lemma_split_is_first_slash(p@, w, 0);
                    assert(p@.subrange(0, w).len() == 0);
                } else {
                    lemma_split_is_first_slash(p@, w, k as int);
                    assert(p@.subrange(w + 1, p@.len() as int).len() == 0);
                }
            }
        }
        return Err(SyncError::ModulePathConstraintViolation);
    }
    let mut j: usize = k + 1;
    while j < n
        invariant
            n == p@.len(),
            k < j <= n,
            p@[k as int] == '/',
            0 < k,
            forall|i: int| 0 <= i < k ==> #[trigger] p@[i] != '/',
            forall|i: int| k < i < j ==> #[trigger] p@[i] != '/',
        decreases n - j,
    {
        if p.get_char(j) == '/' {
            proof {
                if is_module_path(p@) {
                    let w = choose|w: int| splits_at(p@, w);
                    lemma_split_is_first_slash(p@, w, k as int);
                    lemma_split_is_first_slash(p@, w, j as int);
                }
            }
            return Err(SyncError::ModulePathConstraintViolation);
        }
        j = j + 1;
    }
    let group = String::from_str(p.substring_char(0, k));
    let name = String::from_str(p.substring_char(k + 1, n));
    assert(is_segment(group@));
    assert forall|i: int| 0 <= i < name@.len() implies #[trigger] name@[i] != '/' by {
        assert(name@[i] == p@[k + 1 + i]);
    }
    assert(splits_at(p@, k as int));
    assert(p@ =~= joined(group@, name@));
    Ok(ModulePath { group, name })
}

/// The module paths declared under the modules directory, one per entry of
/// its listing, in listing order; none when the directory is absent.
pub fn module_paths(listing: Option<&Vec<TreeEntry>>) -> (r: Vec<ModulePath>)
    ensures
        r@.len() == opt_entries_view(listing).len(),
        forall|i: int|
            0 <= i < r@.len() ==> (#[trigger] r@[i]).group@ == modules_dir() && r@[i].name@
                == opt_entries_view(listing)[i].name,
{
    let mut r: Vec<ModulePath> = Vec::new();
    match listing {
        None => {},
        Some(l) => {
            let mut i: usize = 0;
            while i < l.len()
                invariant
                    i <= l@.len(),
                    listing == Some(l),
                    r@.len() == i,
                    forall|j: int|
                        0 <= j < i ==> (#[trigger] r@[j]).group@ == modules_dir() && r@[j].name@
                            == opt_entries_view(listing)[j].name,
                decreases l@.len() - i,
            {
                proof {
                    reveal_strlit("modules");
                }
                let group = String::from_str("modules");
                assert(group@ =~= modules_dir());
                r.push(ModulePath { group, name: l[i].name.clone() });
                i = i + 1;
            }
        },
    }
    r
}

/// The tree of the modules directory in a root listing; none when the
/// directory is absent or is not a tree (then no module is declared).
pub fn modules_subtree(root: &Vec<TreeEntry>) -> (r: Option<ObjectId>)
    ensures
        r == subtree_of(entries_view(root@), modules_dir()),
{
    proof {
        reveal_strlit("modules");
    }
    let dir = String::from_str("modules");
    assert(dir@ =~= modules_dir());
    subtree_id(root, &dir)
}

} // verus!
