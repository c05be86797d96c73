use pill_bench::assets::{ancestor, asset_dir_from_exe, ASSETS_DIR};

#[test]
fn unknown_executable_uses_plain_assets() {
    assert_eq!(asset_dir_from_exe(&None), "assets");
    assert_eq!(asset_dir_from_exe(&Some(String::new())), ASSETS_DIR);
}

#[test]
fn shallow_executable_path_uses_plain_assets() {
    assert_eq!(asset_dir_from_exe(&Some("demo".to_string())), "assets");
    assert_eq!(asset_dir_from_exe(&Some("/demo".to_string())), "assets");
}

#[test]
fn release_executable_finds_project_assets() {
    assert_eq!(
        asset_dir_from_exe(&Some("/home/me/bevy-demo/target/release/bevy-demo".to_string())),
        "/home/me/bevy-demo/assets"
    );
}

#[test]
fn ancestors_of_a_path() {
    assert_eq!(ancestor("/a/b/c", 0), Some("/a/b/c".to_string()));
    assert_eq!(ancestor("/a/b/c", 1), Some("/a/b".to_string()));
    assert_eq!(ancestor("/a/b/c", 3), Some("/".to_string()));
    assert_eq!(ancestor("/a/b/c", 4), None);
    assert_eq!(ancestor("", 1), None);
}

#[test]
fn asset_dir_always_ends_with_assets() {
    for exe in ["", "x", "/x", "/a/b", "/a/b/c", "/proj/target/release/bevy-demo", "rel/a/b/c"] {
        let dir = asset_dir_from_exe(&Some(exe.to_string()));
        assert!(dir.ends_with(ASSETS_DIR), "{dir}");
    }
}

#[test]
fn project_root_three_levels_up() {
    assert_eq!(
        asset_dir_from_exe(&Some("/proj/target/release/bevy-demo".to_string())),
        "/proj/assets"
    );
    assert_eq!(asset_dir_from_exe(&Some("rel/a/b/c".to_string())), "rel/assets");
    assert_eq!(asset_dir_from_exe(&Some("a/b/c".to_string())), "assets");
    assert_eq!(asset_dir_from_exe(&Some("/bevy-demo".to_string())), "assets");
}
