use xiangqi::engine_bundle::{
    cache_tag, engine_candidates, exe_name, first_present, platform_dir, probe_result, search_bases, EnginePaths,
};

#[test]
fn platform_directories() {
    assert_eq!(platform_dir("macos", "aarch64"), "macos-arm64");
    assert_eq!(platform_dir("linux", "x86_64"), "linux-x86_64");
    assert_eq!(platform_dir("windows", "x86_64"), "windows-x86_64");
    assert_eq!(platform_dir("linux", "aarch64"), "");
}

#[test]
fn executable_names() {
    assert_eq!(exe_name(true), "pikafish.exe");
    assert_eq!(exe_name(false), "pikafish");
}

#[test]
fn candidates_prefer_the_platform_layout() {
    let c = engine_candidates("linux-x86_64", "pikafish");
    assert_eq!(c, vec![vec!["linux-x86_64".to_string(), "pikafish".to_string()], vec!["pikafish".to_string()]]);
    let flat = engine_candidates("", "pikafish");
    assert_eq!(flat, vec![vec!["pikafish".to_string()]]);
}

#[test]
fn first_hit_wins() {
    assert_eq!(first_present(&[false, true, true]), Some(1));
    assert_eq!(first_present(&[false, false]), None);
    assert_eq!(probe_result(&[false, true], &[false, true]), Some((1, Some(1))));
    assert_eq!(probe_result(&[true], &[false, false]), Some((0, None)));
    assert_eq!(probe_result(&[false], &[true]), None);
}

#[test]
fn search_order_and_cache_tag() {
    let bases = search_bases(true, true);
    assert_eq!(bases.len(), 4);
    assert_eq!(bases[1], (0, vec!["..", "Resources", "engines"]));
    assert_eq!(bases[3], (1, vec!["engines"]));
    assert_eq!(search_bases(false, false).len(), 0);
    assert_eq!(cache_tag(51_000_000, 42), "pikafish-51000000-42");
    let p = EnginePaths { engine: "e".to_string(), nnue: None };
    assert!(p.nnue.is_none());
}
