use xtask::validate::parse_github_account;
use xtask::validate::parse_github_username;
use xtask::validate::parse_project_name;

#[test]
fn bootstrap_test_parse_project_name() {
    // valid names
    assert_eq!(parse_project_name("myproject"), Ok("myproject".into()));
    assert_eq!(parse_project_name("my-project"), Ok("my-project".into()));
    assert_eq!(parse_project_name("my_project"), Ok("my_project".into()));
    assert_eq!(parse_project_name("project123"), Ok("project123".into()));
    assert_eq!(parse_project_name("_private"), Ok("_private".into()));
    assert_eq!(parse_project_name("MyProject"), Ok("MyProject".into()));
    assert_eq!(parse_project_name("  myproject  "), Ok("myproject".into()));

    // invalid names
    assert!(parse_project_name("").is_err());
    assert!(parse_project_name("   ").is_err());
    assert!(parse_project_name("123project").is_err());
    assert!(parse_project_name("-project").is_err());
    assert!(parse_project_name("my@project").is_err());
    assert!(parse_project_name("my project").is_err());
    assert!(parse_project_name("my.project").is_err());
}

#[test]
fn test_parse_github_username() {
    // valid accounts
    assert_eq!(parse_github_username("myuser"), Ok("myuser".into()));
    assert_eq!(parse_github_username("my-org"), Ok("my-org".into()));
    assert_eq!(parse_github_username("  myuser  "), Ok("myuser".into()));

    // invalid accounts
    assert!(parse_github_username("").is_err());
    assert!(parse_github_username("   ").is_err());
}

#[test]
fn main_test_parse_project_name() {
    // valid names
    assert_eq!(parse_project_name("myproject"), Ok("myproject".into()));
    assert_eq!(parse_project_name("my-project"), Ok("my-project".into()));
    assert_eq!(parse_project_name("my_project"), Ok("my_project".into()));
    assert_eq!(parse_project_name("project123"), Ok("project123".into()));
    assert_eq!(parse_project_name("_private"), Ok("_private".into()));
    assert_eq!(parse_project_name("MyProject"), Ok("MyProject".into()));
    assert_eq!(parse_project_name("  myproject  "), Ok("myproject".into()));

    // invalid names
    assert!(parse_project_name("").is_err());
    assert!(parse_project_name("   ").is_err());
    assert!(parse_project_name("123project").is_err());
    assert!(parse_project_name("-project").is_err());
    assert!(parse_project_name("my@project").is_err());
    assert!(parse_project_name("my project").is_err());
    assert!(parse_project_name("my.project").is_err());
}

#[test]
fn test_parse_github_account() {
    // valid accounts
    assert_eq!(parse_github_account("myuser"), Ok("myuser".into()));
    assert_eq!(parse_github_account("my-org"), Ok("my-org".into()));
    assert_eq!(parse_github_account("  myuser  "), Ok("myuser".into()));

    // invalid accounts
    assert!(parse_github_account("").is_err());
    assert!(parse_github_account("   ").is_err());
}

#[test]
fn test_project_name_error_messages() {
    assert_eq!(
        parse_project_name(""),
        Err("project name cannot be empty".into())
    );
    assert_eq!(
        parse_project_name("   "),
        Err("project name cannot be empty".into())
    );
    assert_eq!(
        parse_project_name("123project"),
        Err("the name cannot start with a digit: '1'".into())
    );
    assert_eq!(
        parse_project_name("-project"),
        Err("the first character must be a letter or `_`, found: '-'".into())
    );
    assert_eq!(
        parse_project_name("my@project"),
        Err("invalid character '@': only letters, numbers, `-`, or `_` are allowed".into())
    );
    assert_eq!(
        parse_project_name("my project"),
        Err("invalid character ' ': only letters, numbers, `-`, or `_` are allowed".into())
    );
    assert_eq!(
        parse_project_name("my.project"),
        Err("invalid character '.': only letters, numbers, `-`, or `_` are allowed".into())
    );
}

#[test]
fn test_account_name_error_message() {
    assert_eq!(
        parse_github_username("   "),
        Err("GitHub account name cannot be empty".into())
    );
    assert_eq!(
        parse_github_account("\t\n"),
        Err("GitHub account name cannot be empty".into())
    );
}

#[test]
fn test_single_character_names() {
    assert_eq!(parse_project_name("a"), Ok("a".into()));
    assert_eq!(parse_project_name("_"), Ok("_".into()));
    assert_eq!(
        parse_project_name("7"),
        Err("the name cannot start with a digit: '7'".into())
    );
}

#[test]
fn test_unicode_whitespace_is_trimmed() {
    assert_eq!(parse_project_name("\u{A0}demo\u{2003}"), Ok("demo".into()));
    assert_eq!(parse_github_username(" \u{3000} "), Err("GitHub account name cannot be empty".into()));
}
