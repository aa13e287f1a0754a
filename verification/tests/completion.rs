//! The file names and tools that are offered.
use recursive_tui::completion::{
    collect_files, default_offline_tool_catalog, glob_workspace_files, rank_files, Candidate,
    FileNode, FoundFile, MAX_ATFILE_SUGGESTIONS,
};

fn file(name: &str) -> FileNode {
    dated(name, 0)
}

fn dated(name: &str, modified: u64) -> FileNode {
    FileNode::File { name: name.to_string(), modified }
}

fn dir(name: &str, entries: Vec<FileNode>) -> FileNode {
    FileNode::Dir { name: name.to_string(), entries }
}

fn collected(nodes: Vec<FileNode>, query: &str) -> Vec<String> {
    let mut out: Vec<FoundFile> = Vec::new();
    collect_files(&nodes, "", 0, query, &mut out);
    out.into_iter().map(|f| f.path).collect()
}

#[test]
fn default_offline_tool_catalog_has_six_named_entries() {
    let cat = default_offline_tool_catalog();
    assert_eq!(cat.len(), 6, "expected 6 tools, got {} entries", cat.len());
    assert!(
        cat.iter().all(|(n, _)| !n.is_empty()),
        "every tool name must be non-empty; got {cat:?}"
    );
    assert_eq!(cat[0].0, "Read");
}

#[test]
fn glob_workspace_files_finds_cargo_toml_in_cwd() {
    let nodes = vec![dir("src", vec![file("lib.rs")]), file("Cargo.toml")];
    let results = glob_workspace_files(&nodes, "cargo");
    assert!(
        results.iter().any(|p| p.contains("Cargo.toml")),
        "expected Cargo.toml among results, got {results:?}"
    );
}

#[test]
fn collect_files_populates_out_vec() {
    assert_eq!(collected(vec![file("a.txt")], ""), vec!["a.txt".to_string()]);
}

#[test]
fn collect_files_walks_four_levels_deep() {
    let d4 = dir("d4", vec![file("l4.txt"), file("deep.txt")]);
    let d3 = dir("d3", vec![file("l3.txt"), d4]);
    let d2 = dir("d2", vec![file("l2.txt"), d3]);
    let d1 = dir("d1", vec![file("l1.txt"), d2]);
    let mut sorted = collected(vec![d1], "");
    sorted.sort();
    assert!(
        sorted.contains(&"d1/l1.txt".to_string()),
        "depth-1 file should be collected; got {sorted:?}"
    );
    assert!(
        sorted.contains(&"d1/d2/d3/l3.txt".to_string()),
        "depth-3 file should be collected; got {sorted:?}"
    );
    assert!(
        !sorted.contains(&"d1/d2/d3/d4/deep.txt".to_string()),
        "depth-5 file should NOT be collected (depth>3); got {sorted:?}"
    );
    assert!(
        !sorted.contains(&"d1/d2/d3/d4/l4.txt".to_string()),
        "depth-4 file should NOT be collected; got {sorted:?}"
    );
}

#[test]
fn collect_files_emits_forward_slash_relative_paths() {
    let d3 = dir("d3", vec![file("nested.txt")]);
    let out = collected(vec![dir("d1", vec![dir("d2", vec![file("deep.txt"), d3])])], "");
    assert!(
        out.iter().all(|p| !p.contains('\\')),
        "no backslash separators expected; got {out:?}"
    );
    assert!(
        out.contains(&"d1/d2/deep.txt".to_string()),
        "expected forward-slash rel path; got {out:?}"
    );
    assert!(
        out.contains(&"d1/d2/d3/nested.txt".to_string()),
        "expected forward-slash rel path; got {out:?}"
    );
}

#[test]
fn collect_files_skips_hidden_target_and_node_modules() {
    let mut sorted = collected(
        vec![
            dir(".hidden", vec![file("secret.txt")]),
            dir("target", vec![file("build.txt")]),
            dir("node_modules", vec![file("pkg.txt")]),
            file("keep.txt"),
        ],
        "",
    );
    sorted.sort();
    assert_eq!(sorted, vec!["keep.txt".to_string()]);
}

#[test]
fn collect_files_nonempty_query_matches_substring() {
    let out = collected(vec![file("alpha.rs"), file("beta.rs")], "alph");
    assert_eq!(out, vec!["alpha.rs".to_string()]);
}

#[test]
fn collect_files_caps_at_four_times_max_suggestions() {
    let nodes: Vec<FileNode> = (0..49).map(|i| file(&format!("f{i:02}.txt"))).collect();
    let out = collected(nodes, "");
    assert_eq!(
        out.len(),
        MAX_ATFILE_SUGGESTIONS * 4,
        "expected exactly {} entries, got {}",
        MAX_ATFILE_SUGGESTIONS * 4,
        out.len()
    );
}

#[test]
fn files_named_like_the_query_come_first() {
    let nodes = vec![
        dir("b", vec![file("zoo.rs")]),
        dir("a", vec![file("LIB.rs"), file("my_lib.rs")]),
        file("lib.rs"),
        file("readme.md"),
    ];
    let out = glob_workspace_files(&nodes, "Lib");
    assert_eq!(out, vec!["lib.rs", "a/LIB.rs", "a/my_lib.rs"]);
}

#[test]
fn newest_files_come_first_within_each_depth() {
    let nodes = vec![
        dir("d", vec![dated("old.rs", 1), dated("new.rs", 9), dated("same.rs", 9)]),
        dated("top_old.rs", 2),
        dated("top_new.rs", 5),
    ];
    let out = glob_workspace_files(&nodes, "");
    assert_eq!(
        out,
        vec!["top_new.rs", "top_old.rs", "d/new.rs", "d/same.rs", "d/old.rs"]
    );
}

#[test]
fn a_path_is_suggested_once() {
    let candidate = |path: &str, modified: u64| Candidate {
        named: true,
        tier: 0,
        modified,
        path: path.to_string(),
    };
    let out = rank_files(&vec![candidate("a", 1), candidate("b", 3), candidate("a", 7)]);
    assert_eq!(out, vec!["b", "a"]);
}
