//! Generation of Cargo projects.

use incan_backend::project::{BuildResult, ModuleCode, ProjectFile, ProjectGenerator, RunResult};
use incan_backend::INCAN_VERSION;

fn contents<'a>(files: &'a [ProjectFile], path: &str) -> &'a str {
    let found: Vec<&ProjectFile> = files.iter().filter(|file| file.path.join("/") == path).collect();
    assert_eq!(found.len(), 1, "{path} must be written once");
    &found[0].contents
}

fn pair(name: &str, code: &str) -> (String, String) {
    (name.to_string(), code.to_string())
}

fn module(path: &[&str], code: &str) -> ModuleCode {
    ModuleCode {
        path: path.iter().map(|name| name.to_string()).collect(),
        code: code.to_string(),
    }
}

#[test]
fn test_cargo_toml_generation() {
    let generator = ProjectGenerator::new("/tmp/test", "hello", true);
    let toml = generator.generate_cargo_toml();
    assert!(toml.contains("name = \"hello\""));
    assert!(toml.contains("[[bin]]"));
    assert_eq!(
        toml,
        format!(
            "[package]\nname = \"hello\"\nversion = \"{INCAN_VERSION}\"\nedition = \"2021\"\n\n\
             # Generated by the Incan compiler\n\n[dependencies]\n# No additional dependencies\n\n\
             [[bin]]\nname = \"hello\"\npath = \"src/main.rs\"\n"
        )
    );
}

#[test]
fn libraries_have_a_library_target() {
    let toml = ProjectGenerator::new("out", "shapes", false).generate_cargo_toml();
    assert!(toml.ends_with("[lib]\nname = \"shapes\"\npath = \"src/lib.rs\"\n"), "{toml}");
}

#[test]
fn crates_are_declared_once() {
    let mut generator = ProjectGenerator::new("out", "web", true).with_serde().with_axum();
    generator.set_needs_tokio(true);
    generator.add_rust_crate("serde_json");
    generator.add_rust_crate("tokio");
    generator.add_rust_crate("rand");
    generator.add_rust_crate("mystery");
    generator.add_rust_crate_with_version("pinned", "\"=1.2.3\"");
    let toml = generator.generate_cargo_toml();
    for line in [
        "serde = { version = \"1.0\", features = [\"derive\"] }\n",
        "serde_json = \"1.0\"\n",
        "axum = \"0.7\"\n",
        "tokio = { version = \"1\", features = [\"rt-multi-thread\", \"macros\", \"time\", \"sync\", \"net\"] }\n",
        "rand = \"0.8\"\n",
        "mystery = \"*\"\n",
        "pinned = \"=1.2.3\"\n",
    ] {
        assert_eq!(toml.matches(line).count(), 1, "{line} in {toml}");
    }
    assert_eq!(toml.matches("\ntokio = ").count(), 1);
    assert_eq!(toml.matches("\nserde_json = ").count(), 1);
}

#[test]
fn the_runtime_alone_needs_no_network() {
    let toml = ProjectGenerator::new("out", "tasks", true).with_tokio().generate_cargo_toml();
    assert!(
        toml.contains("tokio = { version = \"1\", features = [\"rt-multi-thread\", \"macros\", \"time\", \"sync\"] }\n"),
        "{toml}"
    );
}

#[test]
fn a_later_version_replaces_an_earlier_one() {
    let mut generator = ProjectGenerator::new("out", "demo", true);
    generator.add_rust_crate("rand");
    generator.add_rust_crate_with_version("rand", "\"0.9\"");
    let toml = generator.generate_cargo_toml();
    assert!(toml.contains("rand = \"0.9\""), "{toml}");
    assert!(!toml.contains("rand = \"0.8\""), "{toml}");
}

#[test]
fn single_files_go_to_the_root() {
    let files = ProjectGenerator::new("out", "demo", false).generate("pub fn f() {}");
    assert_eq!(files.len(), 2);
    assert_eq!(contents(&files, "src/lib.rs"), "pub fn f() {}");
    assert!(contents(&files, "Cargo.toml").contains("[lib]"));
}

#[test]
fn test_generate_multi_creates_mod_declarations() {
    let generator = ProjectGenerator::new("incan_test_multi", "test_multi", true);
    let modules = vec![
        pair("models", "pub struct User { pub name: String }"),
        pair("utils", "pub fn greet() -> String { \"hello\".to_string() }"),
    ];
    let main_code = "fn main() { println!(\"Hello\"); }";

    let files = generator.generate_multi(main_code, &modules);

    let main_content = contents(&files, "src/main.rs");
    assert!(main_content.contains("mod models;"));
    assert!(main_content.contains("mod utils;"));
    assert!(main_content.contains("fn main()"));
    assert!(contents(&files, "src/models.rs").contains("pub struct User"));
    assert!(contents(&files, "src/utils.rs").contains("pub fn greet"));
}

#[test]
fn test_generate_multi_empty_modules() {
    let generator = ProjectGenerator::new("incan_test_multi_empty", "test_empty", true);
    let main_code = "fn main() {}";
    let files = generator.generate_multi(main_code, &Vec::new());
    assert_eq!(contents(&files, "src/main.rs"), "fn main() {}");
}

#[test]
fn module_declarations_follow_the_crate_attribute() {
    let generator = ProjectGenerator::new("out", "demo", true);
    let modules = vec![pair("utils", ""), pair("models", "")];
    let files = generator.generate_multi("// top\n#![allow(dead_code)]\nfn main() {}\n", &modules);
    assert_eq!(
        contents(&files, "src/main.rs"),
        "// top\n#![allow(dead_code)]\nmod models;\nmod utils;\n\nfn main() {}\n"
    );
    let files = generator.generate_multi("#![allow(dead_code)]", &modules);
    assert_eq!(
        contents(&files, "src/main.rs"),
        "#![allow(dead_code)]mod models;\nmod utils;\n\n"
    );
    let files = generator.generate_multi("fn main() {}", &modules);
    assert_eq!(contents(&files, "src/main.rs"), "mod models;\nmod utils;\n\nfn main() {}");
}

#[test]
fn nested_modules_get_their_directories() {
    let generator = ProjectGenerator::new("out", "demo", true);
    let modules = vec![
        module(&["db", "models"], "pub struct User;"),
        module(&["db", "admin", "roles"], "pub struct Role;"),
        module(&["util"], "pub fn f() {}"),
    ];
    let files = generator.generate_nested("fn main() {}", &modules);
    assert_eq!(contents(&files, "src/main.rs"), "mod db;\nmod util;\n\nfn main() {}");
    assert_eq!(contents(&files, "src/db/mod.rs"), "pub mod admin;\npub mod models;\n");
    assert_eq!(contents(&files, "src/db/admin/mod.rs"), "pub mod roles;\n");
    assert_eq!(contents(&files, "src/db/models.rs"), "pub struct User;");
    assert_eq!(contents(&files, "src/db/admin/roles.rs"), "pub struct Role;");
    assert_eq!(contents(&files, "src/util.rs"), "pub fn f() {}");
}

#[test]
fn binaries_stand_under_the_target_directory() {
    let path = ProjectGenerator::new("out", "demo", true).binary_path();
    assert_eq!(path.base, "out");
    assert_eq!(path.segments, ["target", "release", "demo"]);
}

#[test]
fn results_keep_what_processes_said() {
    let built = BuildResult::from_output(false, b"ok", &[b'a', 0xFF, b'b']);
    assert!(!built.success);
    assert_eq!(built.stdout, "ok");
    assert_eq!(built.stderr, "a\u{FFFD}b");
    let ran = RunResult::from_status(true, Some(0));
    assert!(ran.success);
    assert_eq!(ran.exit_code, Some(0));
    assert_eq!(ran.stdout, "");
}
