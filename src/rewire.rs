use vstd::prelude::*;
use crate::ids::ObjectId;
use crate::paths::ModulePath;
use crate::tree::{
    entries_view, first_named, lemma_first_named_exists, has_name, opt_entries_view, set_entry, tree_entry, with_entry,
    EntryView, TreeEntry, TREE_MODE,
};

verus! {

/// The id of the tree that the first entry named `n` points at; none when
/// there is no such entry or it is not a tree.
pub open spec fn subtree_of(s: Seq<EntryView>, n: Seq<char>) -> Option<ObjectId> {
    if has_name(s, n) {
        let i = choose|i: int| first_named(s, n, i);
        if s[i].mode == TREE_MODE {
            Some(s[i].id)
        } else {
            None
        }
    } else {
        None
    }
}

proof fn lemma_first_named_is_chosen(s: Seq<EntryView>, n: Seq<char>, i: int)
    requires
        first_named(s, n, i),
    ensures
        has_name(s, n),
        (choose|k: int| first_named(s, n, k)) == i,
{
    assert(has_name(s, n));
    let k = choose|k: int| first_named(s, n, k);
    if k < i {
        assert(s[k].name != n);
    } else if i < k {
        assert(s[i].name != n);
    }
}

/// Position of the first entry named `name`.
pub fn find_entry(listing: &Vec<TreeEntry>, name: &String) -> (r: Option<usize>)
    ensures
        r matches Some(i) ==> first_named(entries_view(listing@), name@, i as int),
        r is None ==> !has_name(entries_view(listing@), name@),
{
    let ghost s = entries_view(listing@);
    let mut i: usize = 0;
    while i < listing.len()
        invariant
            i <= listing@.len(),
            s == entries_view(listing@),
            forall|j: int| 0 <= j < i ==> #[trigger] s[j].name != name@,
        decreases listing@.len() - i,
    {
        if listing[i].name == *name {
            return Some(i);
        }
        i = i + 1;
    }
    None
}

/// `subtree_at` for one segment: the tree that `name` points at in `listing`.
pub fn subtree_id(listing: &Vec<TreeEntry>, name: &String) -> (r: Option<ObjectId>)
    ensures
        r == subtree_of(entries_view(listing@), name@),
{
    match find_entry(listing, name) {
        Some(i) => {
            proof {
                lemma_first_named_is_chosen(entries_view(listing@), name@, i as int);
            }
            if listing[i].mode == TREE_MODE {
                Some(listing[i].id)
            } else {
                None
            }
        },
        None => None,
    }
}

/// New listing of a module's group directory: the group's current listing
/// (empty when the group is absent) with `name -> module_tree` as a tree entry.
pub fn graft_group(group_listing: Option<&Vec<TreeEntry>>, module: &ModulePath, module_tree: ObjectId)
    -> (r: Vec<TreeEntry>)
    ensures
        entries_view(r@) == with_entry(
            opt_entries_view(group_listing),
            tree_entry(module.name@, module_tree),
        ),
{
    match group_listing {
        Some(l) => set_entry(l, &module.name, module_tree, TREE_MODE),
        None => {
            let empty: Vec<TreeEntry> = Vec::new();
            assert(entries_view(empty@) =~= Seq::<EntryView>::empty());
            set_entry(&empty, &module.name, module_tree, TREE_MODE)
        },
    }
}

/// New root listing: the current root with `group -> group_tree` as a tree
/// entry, where `group_tree` is the written result of `graft_group`.
pub fn graft_root(root: &Vec<TreeEntry>, module: &ModulePath, group_tree: ObjectId) -> (r: Vec<
    TreeEntry,
>)
    ensures
        entries_view(r@) == with_entry(entries_view(root@), tree_entry(module.group@, group_tree)),
{
    set_entry(root, &module.group, group_tree, TREE_MODE)
}

/// Inserting an entry keeps every entry of another name at its position and
/// with its id and mode; the inserted entry is the first of its name, and the
/// listing grows by at most that one entry.
pub proof fn lemma_insert_preserves_siblings(s: Seq<EntryView>, e: EntryView)
    ensures
        s.len() <= with_entry(s, e).len() <= s.len() + 1,
        forall|j: int|
            0 <= j < s.len() && s[j].name != e.name ==> #[trigger] with_entry(s, e)[j] == s[j],
        exists|i: int| first_named(with_entry(s, e), e.name, i) && with_entry(s, e)[i] == e,
        forall|j: int|
            s.len() <= j < with_entry(s, e).len() ==> #[trigger] with_entry(s, e)[j] == e,
{
    let r = with_entry(s, e);
    if has_name(s, e.name) {
        lemma_first_named_exists(s, e.name);
        let i = choose|i: int| first_named(s, e.name, i);
        assert(first_named(r, e.name, i));
    } else {
        assert(first_named(r, e.name, s.len() as int));
    }
}

/// Grafting a module tree at `<group>/<name>` keeps every root entry other
/// than `group`, and every entry of the group directory other than `name`,
/// with its id unchanged, whatever id the rewritten group tree receives; the
/// group entry then points at that tree and the module entry at `module_tree`.
pub proof fn lemma_graft_preserves_siblings(
    root: Seq<EntryView>,
    group_listing: Seq<EntryView>,
    group: Seq<char>,
    name: Seq<char>,
    module_tree: ObjectId,
    group_tree: ObjectId,
)
    ensures
        forall|j: int|
            0 <= j < root.len() && root[j].name != group ==> #[trigger] with_entry(
                root,
                tree_entry(group, group_tree),
            )[j] == root[j],
        forall|j: int|
            0 <= j < group_listing.len() && group_listing[j].name != name ==> #[trigger] with_entry(
                group_listing,
                tree_entry(name, module_tree),
            )[j] == group_listing[j],
        subtree_of(with_entry(root, tree_entry(group, group_tree)), group) == Some(group_tree),
        subtree_of(with_entry(group_listing, tree_entry(name, module_tree)), name) == Some(
            module_tree,
        ),
{
    lemma_insert_preserves_siblings(root, tree_entry(group, group_tree));
    lemma_insert_preserves_siblings(group_listing, tree_entry(name, module_tree));
    let r = with_entry(root, tree_entry(group, group_tree));
    let i = choose|i: int| first_named(r, group, i) && r[i] == tree_entry(group, group_tree);
    lemma_first_named_is_chosen(r, group, i);
    let g = with_entry(group_listing, tree_entry(name, module_tree));
    let k = choose|k: int| first_named(g, name, k) && g[k] == tree_entry(name, module_tree);
    lemma_first_named_is_chosen(g, name, k);
}

} // verus!
