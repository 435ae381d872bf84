use ariel_core::depfile::{dependency_line, manifest_pattern};

#[test]
fn pattern_of_a_member() {
    assert_eq!(manifest_pattern("src/*"), "src/*/Cargo.toml");
    assert_eq!(manifest_pattern(""), "/Cargo.toml");
}

#[test]
fn line_without_files_is_the_target_and_a_colon() {
    assert_eq!(dependency_line("/out/deps", &Vec::new()), "/out/deps:");
}

#[test]
fn line_lists_the_files_in_order() {
    let files = vec![String::from("/w/a/Cargo.toml"), String::from("/w/b/Cargo.toml")];
    assert_eq!(dependency_line("/out/deps", &files), "/out/deps: /w/a/Cargo.toml /w/b/Cargo.toml");
}
