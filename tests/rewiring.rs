use modsync::error::SyncError;
use modsync::ids::ObjectId;
use modsync::paths::{module_paths, modules_subtree, parse_module_path, ModulePath};
use modsync::rewire::{find_entry, graft_group, graft_root, subtree_id};
use modsync::tree::{set_entry, TreeEntry, TREE_MODE};

const BLOB_MODE: u32 = 0o100644;

fn oid(n: u32) -> ObjectId {
    ObjectId { hi: 0, mid: 0, lo: n }
}

fn entry(name: &str, id: u32, mode: u32) -> TreeEntry {
    TreeEntry { name: name.to_string(), id: oid(id), mode }
}

fn shape(v: &[TreeEntry]) -> Vec<(String, ObjectId, u32)> {
    v.iter().map(|e| (e.name.clone(), e.id, e.mode)).collect()
}

#[test]
fn parses_two_segment_path() {
    let m = parse_module_path("modules/foo").unwrap();
    assert_eq!(m.group, "modules");
    assert_eq!(m.name, "foo");
    assert_eq!(m.text(), "modules/foo");
}

#[test]
fn rejects_paths_without_two_segments() {
    for p in ["", "modules", "a/b/c", "/foo", "foo/", "/", "a//b"] {
        assert!(matches!(
            parse_module_path(p),
            Err(SyncError::ModulePathConstraintViolation)
        ));
    }
}

#[test]
fn discovers_modules_in_listing_order() {
    let root = vec![entry("README", 1, BLOB_MODE), entry("modules", 2, TREE_MODE)];
    assert_eq!(modules_subtree(&root), Some(oid(2)));
    let listing = vec![entry("foo", 3, TREE_MODE), entry("bar", 4, TREE_MODE)];
    let paths: Vec<String> = module_paths(Some(&listing)).iter().map(|m| m.text()).collect();
    assert_eq!(paths, vec!["modules/foo".to_string(), "modules/bar".to_string()]);
}

#[test]
fn no_modules_directory_means_no_modules() {
    let root = vec![entry("src", 1, TREE_MODE)];
    assert_eq!(modules_subtree(&root), None);
    assert!(module_paths(None).is_empty());
    let blob_root = vec![entry("modules", 1, BLOB_MODE)];
    assert_eq!(modules_subtree(&blob_root), None);
}

#[test]
fn set_entry_overwrites_in_place() {
    let l = vec![entry("a", 1, BLOB_MODE), entry("b", 2, TREE_MODE), entry("c", 3, BLOB_MODE)];
    let r = set_entry(&l, &"b".to_string(), oid(9), TREE_MODE);
    assert_eq!(
        shape(&r),
        shape(&[entry("a", 1, BLOB_MODE), entry("b", 9, TREE_MODE), entry("c", 3, BLOB_MODE)])
    );
}

#[test]
fn set_entry_appends_new_name() {
    let l = vec![entry("a", 1, BLOB_MODE)];
    let r = set_entry(&l, &"z".to_string(), oid(5), TREE_MODE);
    assert_eq!(shape(&r), shape(&[entry("a", 1, BLOB_MODE), entry("z", 5, TREE_MODE)]));
}

#[test]
fn lookup_finds_first_entry_and_only_trees() {
    let l = vec![entry("a", 1, BLOB_MODE), entry("d", 2, TREE_MODE)];
    assert_eq!(find_entry(&l, &"d".to_string()), Some(1));
    assert_eq!(find_entry(&l, &"x".to_string()), None);
    assert_eq!(subtree_id(&l, &"d".to_string()), Some(oid(2)));
    assert_eq!(subtree_id(&l, &"a".to_string()), None);
}

#[test]
fn graft_keeps_siblings() {
    let module = ModulePath { group: "modules".to_string(), name: "foo".to_string() };
    let group = vec![entry("bar", 10, TREE_MODE), entry("foo", 11, TREE_MODE)];
    let g = graft_group(Some(&group), &module, oid(20));
    assert_eq!(shape(&g), shape(&[entry("bar", 10, TREE_MODE), entry("foo", 20, TREE_MODE)]));
    let root = vec![entry("README", 1, BLOB_MODE), entry("modules", 2, TREE_MODE)];
    let r = graft_root(&root, &module, oid(30));
    assert_eq!(shape(&r), shape(&[entry("README", 1, BLOB_MODE), entry("modules", 30, TREE_MODE)]));
}

#[test]
fn graft_into_missing_group_starts_empty() {
    let module = ModulePath { group: "modules".to_string(), name: "foo".to_string() };
    let g = graft_group(None, &module, oid(7));
    assert_eq!(shape(&g), shape(&[entry("foo", 7, TREE_MODE)]));
}
