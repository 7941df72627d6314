use xtask::bootstrap::bootstrap_substitutions;
use xtask::bootstrap::check_project_root;
use xtask::bootstrap::execute_bootstrap;
use xtask::bootstrap::parse_confirmation;
use xtask::bootstrap::plan_directory_rename;
use xtask::bootstrap::update_cargo_lock;
use xtask::bootstrap::update_readme;
use xtask::bootstrap::update_root_cargo_toml;
use xtask::bootstrap::update_semantic_yml;
use xtask::bootstrap::WorkspaceFiles;

#[test]
fn test_update_root_cargo_toml_end_to_end() {
    let manifest = "\
[package]\n\
name = \"template\"\n\
repository = \"https://github.com/fast/template\"\n";
    let updated = update_root_cargo_toml(manifest, "demo", "alice");
    assert_eq!(
        updated,
        "\
[package]\n\
name = \"demo\"\n\
repository = \"https://github.com/alice/demo\"\n"
    );
}

#[test]
fn test_update_readme() {
    let readme = "See https://github.com/fast/template; this template is generic";
    let updated = update_readme(readme, "demo", "alice");
    // Only the path segments are rewritten; a bare `template` token stays.
    assert_eq!(
        updated,
        "See https://github.com/alice/demo; this template is generic"
    );
}

#[test]
fn test_update_semantic_yml() {
    let yml = "titleOnly: true\n# applies to /fast/template\n";
    let updated = update_semantic_yml(yml, "demo", "alice");
    assert_eq!(updated, "titleOnly: true\n# applies to /alice/demo\n");
}

#[test]
fn test_update_cargo_lock() {
    let lock = "[[package]]\nname = \"template\"\n";
    assert_eq!(
        update_cargo_lock(lock, "demo"),
        "[[package]]\nname = \"demo\"\n"
    );
}

#[test]
fn test_execute_bootstrap_rewrites_every_file() {
    let files = WorkspaceFiles {
        root_cargo_toml: "members = [\"template\"] # repo /fast/template".into(),
        project_cargo_toml: "name = \"template\"".into(),
        readme: "clone /fast/template into /template".into(),
        semantic_yml: "scope: /fast/template".into(),
        cargo_lock: "name = \"template\"".into(),
    };
    let out = execute_bootstrap(&files, "demo", "alice");
    assert_eq!(out.root_cargo_toml, "members = [\"demo\"] # repo /alice/demo");
    assert_eq!(out.project_cargo_toml, "name = \"demo\"");
    assert_eq!(out.readme, "clone /alice/demo into /demo");
    assert_eq!(out.semantic_yml, "scope: /alice/demo");
    assert_eq!(out.cargo_lock, "name = \"demo\"");
}

#[test]
fn test_bootstrap_substitutions_plan() {
    let steps = bootstrap_substitutions("demo", "alice");
    let plan: Vec<(&str, &str, &str)> = steps
        .iter()
        .map(|s| (s.file.as_str(), s.pattern.as_str(), s.replacement.as_str()))
        .collect();
    assert_eq!(
        plan,
        vec![
            ("Cargo.toml", "/fast", "/alice"),
            ("Cargo.toml", "template", "demo"),
            ("template/Cargo.toml", "template", "demo"),
            ("README.md", "/fast", "/alice"),
            ("README.md", "/template", "/demo"),
            (".github/semantic.yml", "/fast/template", "/alice/demo"),
            ("Cargo.lock", "template", "demo"),
        ]
    );
}

#[test]
fn test_plan_agrees_with_file_updates() {
    // Applying the plan's steps file by file gives the same content as the
    // per-file update functions.
    let files = [
        ("Cargo.toml", "name = \"template\" # repo /fast/template"),
        ("template/Cargo.toml", "name = \"template\""),
        ("README.md", "clone /fast/template into /template"),
        (".github/semantic.yml", "scope: /fast/template"),
        ("Cargo.lock", "name = \"template\""),
    ];
    let steps = bootstrap_substitutions("demo", "alice");
    let mut by_plan: Vec<String> = Vec::new();
    for (file, content) in files {
        let mut current = content.to_owned();
        for step in &steps {
            if step.file == file {
                current = xtask::subst::substitute(&current, &step.pattern, &step.replacement).0;
            }
        }
        by_plan.push(current);
    }
    let out = execute_bootstrap(
        &WorkspaceFiles {
            root_cargo_toml: files[0].1.into(),
            project_cargo_toml: files[1].1.into(),
            readme: files[2].1.into(),
            semantic_yml: files[3].1.into(),
            cargo_lock: files[4].1.into(),
        },
        "demo",
        "alice",
    );
    assert_eq!(
        by_plan,
        vec![
            out.root_cargo_toml,
            out.project_cargo_toml,
            out.readme,
            out.semantic_yml,
            out.cargo_lock,
        ]
    );
}

#[test]
fn test_directory_rename_step() {
    let step = plan_directory_rename("demo", false).unwrap();
    assert_eq!(step.from, "template");
    assert_eq!(step.to, "demo");
}

#[test]
fn test_directory_rename_collision() {
    let err = plan_directory_rename("demo", true).unwrap_err();
    assert_eq!(err, "Directory 'demo' already exists");
}

#[test]
fn test_check_project_root() {
    assert!(check_project_root(true, true, true).is_ok());
    assert_eq!(
        check_project_root(false, true, true),
        Err("This command must be run from the project root directory".into())
    );
    assert_eq!(
        check_project_root(true, false, true),
        Err("This command must be run from the project root directory".into())
    );
    assert_eq!(
        check_project_root(true, true, false),
        Err(
            "The 'template' directory not found. This project may have already been bootstrapped."
                .into()
        )
    );
}

#[test]
fn test_parse_confirmation() {
    assert!(parse_confirmation("y"));
    assert!(parse_confirmation("Y"));
    assert!(parse_confirmation("yes"));
    assert!(parse_confirmation("YES"));
    assert!(parse_confirmation("Yes"));
    assert!(parse_confirmation("  yes  "));
    assert!(!parse_confirmation(""));
    assert!(!parse_confirmation("n"));
    assert!(!parse_confirmation("no"));
    assert!(!parse_confirmation("yess"));
    assert!(!parse_confirmation("oui"));
    // The raw line from the terminal still carries its newline.
    assert!(parse_confirmation("y\n"));
    assert!(parse_confirmation("yes\r\n"));
}
