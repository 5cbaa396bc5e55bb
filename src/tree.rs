use vstd::prelude::*;
use crate::ids::ObjectId;

verus! {

/// File mode of an entry that points at a tree.
pub const TREE_MODE: u32 = 0o040000;

/// One entry of a tree object: a path segment, the id of the object it
/// points at, and its file mode.
pub struct TreeEntry {
    pub name: String,
    pub id: ObjectId,
    pub mode: u32,
}

/// What an entry says, as plain values.
pub ghost struct EntryView {
    pub name: Seq<char>,
    pub id: ObjectId,
    pub mode: u32,
}

impl View for TreeEntry {
    type V = EntryView;

    open spec fn view(&self) -> EntryView {
        EntryView { name: self.name@, id: self.id, mode: self.mode }
    }
}

/// The entries of a listing, as plain values, in order.
pub open spec fn entries_view(v: Seq<TreeEntry>) -> Seq<EntryView> {
    v.map_values(|e: TreeEntry| e@)
}

/// The listing of an optional tree; a missing tree lists nothing.
pub open spec fn opt_entries_view(v: Option<&Vec<TreeEntry>>) -> Seq<EntryView> {
    match v {
        Some(l) => entries_view(l@),
        None => Seq::empty(),
    }
}

/// The entry that points at the tree `id` under the name `name`.
pub open spec fn tree_entry(name: Seq<char>, id: ObjectId) -> EntryView {
    EntryView { name, id, mode: TREE_MODE }
}

/// Some entry of `s` is named `n`.
pub open spec fn has_name(s: Seq<EntryView>, n: Seq<char>) -> bool {
    exists|i: int| 0 <= i < s.len() && #[trigger] s[i].name == n
}

/// `i` is the first position of `s` that holds an entry named `n`.
pub open spec fn first_named(s: Seq<EntryView>, n: Seq<char>, i: int) -> bool {
    &&& 0 <= i < s.len()
    &&& s[i].name == n
    &&& forall|j: int| 0 <= j < i ==> #[trigger] s[j].name != n
}

/// The listing `s` with `e` inserted: the first entry named as `e` is
/// overwritten in place; with no such entry, `e` is appended.
pub open spec fn with_entry(s: Seq<EntryView>, e: EntryView) -> Seq<EntryView> {
    if has_name(s, e.name) {
        s.update(choose|i: int| first_named(s, e.name, i), e)
    } else {
        s.push(e)
    }
}

/// A name that occurs has a first occurrence.
pub(crate) proof fn lemma_first_named_exists(s: Seq<EntryView>, n: Seq<char>)
    requires
        has_name(s, n),
    ensures
        exists|i: int| first_named(s, n, i),
    decreases s.len(),
{
    let t = s.drop_last();
    if has_name(t, n) {
        lemma_first_named_exists(t, n);
        let i = choose|i: int| first_named(t, n, i);
        assert forall|j: int| 0 <= j < i implies #[trigger] s[j].name != n by {
            assert(t[j] == s[j]);
            assert(t[j].name != n);
        }
        assert(t[i] == s[i]);
        assert(first_named(s, n, i));
    } else {
        assert forall|j: int| 0 <= j < s.len() - 1 implies #[trigger] s[j].name != n by {
            assert(t[j] == s[j]);
        }
        let w = choose|w: int| 0 <= w < s.len() && #[trigger] s[w].name == n;
        assert(first_named(s, n, s.len() - 1));
    }
}

proof fn lemma_first_named_unique(s: Seq<EntryView>, n: Seq<char>, i: int, k: int)
    requires
        first_named(s, n, i),
        first_named(s, n, k),
    ensures
        i == k,
{
    if i < k {
        assert(s[i].name != n);
    } else if k < i {
        assert(s[k].name != n);
    }
}

/// Copy of an entry.
pub fn copy_entry(e: &TreeEntry) -> (r: TreeEntry)
    ensures
        r@ == e@,
{
    TreeEntry { name: e.name.clone(), id: e.id, mode: e.mode }
}

/// Copy of a listing, entry by entry.
pub fn copy_listing(v: &Vec<TreeEntry>) -> (r: Vec<TreeEntry>)
    ensures
        entries_view(r@) == entries_view(v@),
{
    let mut r: Vec<TreeEntry> = Vec::new();
    let mut i: usize = 0;
    while i < v.len()
        invariant
            i <= v@.len(),
            r@.len() == i,
            entries_view(r@) == entries_view(v@).subrange(0, i as int),
        decreases v@.len() - i,
    {
        let e = copy_entry(&v[i]);
        let ghost before = r@;
        r.push(e);
        assert(r@ == before.push(e));
        i = i + 1;
        assert forall|j: int| 0 <= j < i implies entries_view(r@)[j] == entries_view(v@)[j] by {
            if j < i - 1 {
                assert(r@[j] == before[j]);
                assert(entries_view(before)[j] == entries_view(v@).subrange(0, i - 1)[j]);
            }
        }
        assert(entries_view(r@) =~= entries_view(v@).subrange(0, i as int));
    }
    assert(entries_view(v@).subrange(0, v@.len() as int) =~= entries_view(v@));
    r
}

/// Inserts or overwrites the entry `name -> (id, mode)` in a listing; every
/// other entry keeps its place and its content.
pub fn set_entry(listing: &Vec<TreeEntry>, name: &String, id: ObjectId, mode: u32) -> (r: Vec<
    TreeEntry,
>)
    ensures
        entries_view(r@) == with_entry(
            entries_view(listing@),
            EntryView { name: name@, id, mode },
        ),
{
    let ghost s = entries_view(listing@);
    let ghost e = EntryView { name: name@, id, mode };
    let mut r = copy_listing(listing);
    let mut i: usize = 0;
    while i < listing.len()
        invariant
            i <= listing@.len(),
            s == entries_view(listing@),
            e == (EntryView { name: name@, id, mode }),
            entries_view(r@) == s,
            forall|j: int| 0 <= j < i ==> #[trigger] s[j].name != name@,
        decreases listing@.len() - i,
    {
        if listing[i].name == *name {
            assert(first_named(s, name@, i as int));
            assert(has_name(s, name@));
            proof {
                let k = choose|k: int| first_named(s, name@, k);
                lemma_first_named_unique(s, name@, i as int, k);
            }
            let ghost before = r@;
            let ne = TreeEntry { name: name.clone(), id, mode };
            assert(ne@ == e);
            r.set(i, ne);
            assert(r@ == before.update(i as int, ne));
            assert(entries_view(r@) =~= s.update(i as int, e));
            return r;
        }
        i = i + 1;
    }
    assert(!has_name(s, name@));
    let ghost before = r@;
    let ne = TreeEntry { name: name.clone(), id, mode };
    assert(ne@ == e);
    r.push(ne);
    assert(r@ == before.push(ne));
    assert(entries_view(r@) =~= s.push(e));
    r
}

} // verus!
