use ecotest::ecosystem::Ecosystem;
use ecotest::project::Project;

fn names(list: &[&str]) -> Vec<String> {
    list.iter().map(|s| s.to_string()).collect()
}

#[test]
fn detects_rust_from_cargo_marker() {
    let files = names(&["src", "Cargo.toml", "README.md"]);
    assert!(matches!(Ecosystem::detect(&files), Some(Ecosystem::Rust)));
}

#[test]
fn detects_elixir_from_mix_marker() {
    let files = names(&["lib", "mix.exs"]);
    assert!(matches!(Ecosystem::detect(&files), Some(Ecosystem::Elixir)));
}

#[test]
fn detects_nothing_without_marker() {
    let files = names(&["notes.txt", "Makefile"]);
    assert!(Ecosystem::detect(&files).is_none());
    let empty: Vec<String> = Vec::new();
    assert!(Ecosystem::detect(&empty).is_none());
}

#[test]
fn marker_name_is_not_enough_as_substring() {
    let files = names(&["Cargo.toml.bak", "mix.exs.old"]);
    assert!(Ecosystem::detect(&files).is_none());
}

#[test]
fn both_markers_resolve_to_rust_first() {
    let files = names(&["mix.exs", "Cargo.toml"]);
    assert!(matches!(Ecosystem::detect(&files), Some(Ecosystem::Rust)));
}

#[test]
fn detection_is_idempotent_on_unchanged_input() {
    let files = names(&["Cargo.toml", "mix.exs"]);
    let first = Ecosystem::detect(&files);
    let second = Ecosystem::detect(&files);
    assert_eq!(first, second);
}

#[test]
fn markers_and_commands_are_fixed() {
    assert_eq!(Ecosystem::Rust.marker(), "Cargo.toml");
    assert_eq!(Ecosystem::Elixir.marker(), "mix.exs");
    assert_eq!(Ecosystem::Rust.test_program(), "cargo");
    assert_eq!(Ecosystem::Elixir.test_program(), "mix");
    assert_eq!(Ecosystem::Rust.test_args(), vec!["test".to_string()]);
    assert_eq!(Ecosystem::Elixir.test_args(), vec!["test".to_string()]);
}

#[test]
fn project_detect_keeps_name_and_root() {
    let files = names(&["Cargo.toml"]);
    let p = Project::detect("alpha".to_string(), "/work/alpha".to_string(), &files).unwrap();
    assert_eq!(p.name, "alpha");
    assert_eq!(p.root, "/work/alpha");
    assert!(matches!(p.ecosystem, Ecosystem::Rust));
}

#[test]
fn project_detect_rejects_unmarked_directory() {
    let files = names(&["data.csv"]);
    let p = Project::detect("gamma".to_string(), "/work/gamma".to_string(), &files);
    assert!(p.is_none());
}
