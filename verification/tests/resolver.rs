use version_swap::fsmodel::{contains_path, resolve, FsNode, RelPath};

fn file(name: &str) -> FsNode {
    FsNode::File { name: name.to_string() }
}

fn dir(name: &str, entries: Vec<FsNode>) -> FsNode {
    FsNode::Dir { name: name.to_string(), entries }
}

fn segments(paths: &[RelPath]) -> Vec<Vec<String>> {
    paths.iter().map(|p| p.segments.clone()).collect()
}

fn path(parts: &[&str]) -> RelPath {
    RelPath { segments: parts.iter().map(|s| s.to_string()).collect() }
}

#[test]
fn excluded_names_never_resolve() {
    let payload = vec![
        file("keep.esm"),
        file("library.acf"),
        file("textures.bsa"),
        file(".DS_Store"),
        file("notes.DS_Store"),
        file("nodotbsa"),
        file("layered.bsa.txt"),
        dir("plugins", vec![file("inner.esm")]),
    ];
    let resolved = resolve(&payload, true);
    assert_eq!(
        segments(&resolved),
        vec![
            vec!["keep.esm".to_string()],
            vec!["nodotbsa".to_string()],
            vec!["layered.bsa.txt".to_string()],
        ]
    );
}

#[test]
fn exclusion_applies_inside_data_too() {
    let payload = vec![dir(
        "data",
        vec![file("good.esm"), file("steam.acf"), file("pack.bsa"), file(".DS_Store")],
    )];
    let resolved = resolve(&payload, true);
    assert_eq!(segments(&resolved), vec![vec!["data".to_string(), "good.esm".to_string()]]);
}

#[test]
fn flattening_is_single_level() {
    // payload/data/x resolves; payload/data/data/y does not: the nested walk
    // runs with flattening already spent.
    let payload = vec![dir("data", vec![file("x"), dir("data", vec![file("y")])])];
    let resolved = resolve(&payload, true);
    assert_eq!(segments(&resolved), vec![vec!["data".to_string(), "x".to_string()]]);
}

#[test]
fn no_flattening_when_disallowed() {
    let payload = vec![file("top.esm"), dir("data", vec![file("x")])];
    let resolved = resolve(&payload, false);
    assert_eq!(segments(&resolved), vec![vec!["top.esm".to_string()]]);
}

#[test]
fn data_directory_name_is_case_insensitive() {
    let payload = vec![dir("Data", vec![file("x.esm")])];
    let resolved = resolve(&payload, true);
    assert_eq!(segments(&resolved), vec![vec!["Data".to_string(), "x.esm".to_string()]]);
}

#[test]
fn other_directories_are_skipped_entirely() {
    let payload = vec![dir("docs", vec![file("readme.txt")]), dir("meta", vec![])];
    let resolved = resolve(&payload, true);
    assert!(resolved.is_empty());
}

#[test]
fn listing_order_is_preserved() {
    let payload = vec![
        file("b.exe"),
        dir("data", vec![file("c.esm"), file("a.esl")]),
        file("a.dll"),
    ];
    let resolved = resolve(&payload, true);
    assert_eq!(
        segments(&resolved),
        vec![
            vec!["b.exe".to_string()],
            vec!["data".to_string(), "c.esm".to_string()],
            vec!["data".to_string(), "a.esl".to_string()],
            vec!["a.dll".to_string()],
        ]
    );
}

#[test]
fn membership_of_resolved_paths() {
    let payload = vec![file("SkyrimSE.exe"), dir("data", vec![file("x.esm")])];
    let resolved = resolve(&payload, true);
    assert!(contains_path(&resolved, &path(&["SkyrimSE.exe"])));
    assert!(contains_path(&resolved, &path(&["data", "x.esm"])));
    assert!(!contains_path(&resolved, &path(&["data", "y.esm"])));
    assert!(!contains_path(&resolved, &path(&["x.esm"])));
}
