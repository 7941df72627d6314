//! Construction of the external tool command lines.
//!
//! The task dispatcher selects among build, test, lint and bootstrap, and
//! every task other than bootstrap runs one or more external commands. The
//! functions here compute each command line — the program to look up on the
//! search path and its argument list — exactly; spawning the process, and
//! installing a missing tool first, stay with the caller.

use vstd::prelude::*;

use crate::text::str_eq;

verus! {

/// One external command: the program to run and its arguments.
#[derive(Debug)]
pub struct Invocation {
    pub program: String,
    pub args: Vec<String>,
}

/// The argument list of the build task.
pub open spec fn build_args(locked: bool) -> Seq<Seq<char>> {
    let base = seq![
        "build"@,
        "--workspace"@,
        "--all-features"@,
        "--tests"@,
        "--examples"@,
        "--benches"@,
        "--bins"@,
    ];
    if locked {
        base.push("--locked"@)
    } else {
        base
    }
}

/// The feature names joined with commas, as one argument.
pub open spec fn joined_features(parts: Seq<Seq<char>>) -> Seq<char>
    decreases parts.len(),
{
    if parts.len() == 0 {
        Seq::empty()
    } else if parts.len() == 1 {
        parts[0]
    } else {
        parts[0] + ","@ + joined_features(parts.drop_first())
    }
}

/// The argument list of the test task.
pub open spec fn test_args(no_capture: bool, default_features: bool, features: Seq<Seq<char>>) -> Seq<
    Seq<char>,
> {
    seq!["test"@, "--workspace"@] + (if !default_features {
        seq!["--no-default-features"@]
    } else {
        Seq::empty()
    }) + (if features.len() > 0 {
        seq!["--features"@, joined_features(features)]
    } else {
        Seq::empty()
    }) + (if no_capture {
        seq!["--"@, "--nocapture"@]
    } else {
        Seq::empty()
    })
}

/// The argument list of the format check.
pub open spec fn format_args(fix: bool) -> Seq<Seq<char>> {
    if fix {
        seq!["fmt"@, "--all"@]
    } else {
        seq!["fmt"@, "--all"@, "--check"@]
    }
}

/// The argument list of the clippy check.
pub open spec fn clippy_args(fix: bool) -> Seq<Seq<char>> {
    let base = seq!["clippy"@, "--tests"@, "--all-features"@, "--all-targets"@, "--workspace"@];
    if fix {
        base + seq!["--allow-staged"@, "--allow-dirty"@, "--fix"@]
    } else {
        base + seq!["--"@, "-D"@, "warnings"@]
    }
}

/// The argument list of the license-header check.
pub open spec fn hawkeye_args(fix: bool) -> Seq<Seq<char>> {
    if fix {
        seq!["format"@, "--fail-if-updated=false"@]
    } else {
        seq!["check"@]
    }
}

/// The argument list of the TOML format check.
pub open spec fn taplo_args(fix: bool) -> Seq<Seq<char>> {
    if fix {
        seq!["format"@]
    } else {
        seq!["format"@, "--check"@]
    }
}

/// Appends one argument.
fn push_arg(args: &mut Vec<String>, arg: &str)
    ensures
        final(args)@.len() == old(args)@.len() + 1,
        final(args).deep_view() == old(args).deep_view().push(arg@),
{
    args.push(String::from_str(arg));
    assert(args.deep_view() =~= old(args).deep_view().push(arg@));
}

/// Appends one already-built argument.
fn push_string(args: &mut Vec<String>, arg: String)
    ensures
        final(args)@.len() == old(args)@.len() + 1,
        final(args).deep_view() == old(args).deep_view().push(arg@),
{
    args.push(arg);
    assert(args.deep_view() =~= old(args).deep_view().push(args@.last()@));
}

/// The build command: compile the whole workspace with every target and
/// feature, optionally asserting that the lock file stays unchanged.
pub fn make_build_cmd(locked: bool) -> (r: Invocation)
    ensures
        r.program@ == "cargo"@,
        r.args.deep_view() == build_args(locked),
{
    let mut args: Vec<String> = Vec::new();
    push_arg(&mut args, "build");
    push_arg(&mut args, "--workspace");
    push_arg(&mut args, "--all-features");
    push_arg(&mut args, "--tests");
    push_arg(&mut args, "--examples");
    push_arg(&mut args, "--benches");
    push_arg(&mut args, "--bins");
    if locked {
        push_arg(&mut args, "--locked");
    }
    assert(args.deep_view() =~= build_args(locked));
    Invocation { program: String::from_str("cargo"), args }
}

/// Joining one more part appends a comma and the part.
proof fn lemma_joined_push(p: Seq<Seq<char>>, x: Seq<char>)
    requires
        p.len() >= 1,
    ensures
        joined_features(p.push(x)) == joined_features(p) + ","@ + x,
    decreases p.len(),
{
    if p.len() == 1 {
        assert(p.push(x).drop_first() =~= seq![x]);
        assert(joined_features(seq![x]) == x);
        assert(p.push(x)[0] == p[0]);
    } else {
        lemma_joined_push(p.drop_first(), x);
        assert(p.push(x).drop_first() =~= p.drop_first().push(x));
        assert((p[0] + ","@) + (joined_features(p.drop_first()) + ","@ + x) =~= ((p[0] + ","@)
            + joined_features(p.drop_first())) + ","@ + x);
    }
}

/// The feature names joined with commas.
fn join_features(features: &[&str]) -> (r: String)
    ensures
        r@ == joined_features(features.deep_view()),
{
    let n = features.len();
    let mut out = String::new();
    if n == 0 {
        assert(out@ =~= joined_features(features.deep_view()));
        return out;
    }
    out.append(features[0]);
    proof {
        let parts = features.deep_view();
        assert(Seq::<char>::empty() + parts[0] =~= parts[0]);
        assert(parts.take(1) =~= seq![parts[0]]);
        assert(joined_features(seq![parts[0]]) == parts[0]);
    }
    let mut i: usize = 1;
    while i < n
        invariant
            n == features@.len(),
            1 <= i <= n,
            out@ == joined_features(features.deep_view().take(i as int)),
        decreases n - i,
    {
        out.append(",");
        out.append(features[i]);
        proof {
            let parts = features.deep_view();
            lemma_joined_push(parts.take(i as int), parts[i as int]);
            assert(parts.take(i as int).push(parts[i as int]) =~= parts.take(i + 1));
        }
        i = i + 1;
    }
    proof {
        assert(features.deep_view().take(n as int) =~= features.deep_view());
    }
    out
}

/// The test command: run the workspace tests, optionally without default
/// features, with extra features, or without output capture.
pub fn make_test_cmd(no_capture: bool, default_features: bool, features: &[&str]) -> (r:
    Invocation)
    ensures
        r.program@ == "cargo"@,
        r.args.deep_view() == test_args(no_capture, default_features, features.deep_view()),
{
    let mut args: Vec<String> = Vec::new();
    push_arg(&mut args, "test");
    push_arg(&mut args, "--workspace");
    if !default_features {
        push_arg(&mut args, "--no-default-features");
    }
    if features.len() > 0 {
        push_arg(&mut args, "--features");
        let joined = join_features(features);
        push_string(&mut args, joined);
    }
    if no_capture {
        push_arg(&mut args, "--");
        push_arg(&mut args, "--nocapture");
    }
    assert(args.deep_view() =~= test_args(no_capture, default_features, features.deep_view()));
    Invocation { program: String::from_str("cargo"), args }
}

/// The format command: check the workspace formatting, or apply it.
pub fn make_format_cmd(fix: bool) -> (r: Invocation)
    ensures
        r.program@ == "cargo"@,
        r.args.deep_view() == format_args(fix),
{
    let mut args: Vec<String> = Vec::new();
    push_arg(&mut args, "fmt");
    push_arg(&mut args, "--all");
    if !fix {
        push_arg(&mut args, "--check");
    }
    assert(args.deep_view() =~= format_args(fix));
    Invocation { program: String::from_str("cargo"), args }
}

/// The clippy command: lint every target, denying warnings, or apply the
/// suggested fixes.
pub fn make_clippy_cmd(fix: bool) -> (r: Invocation)
    ensures
        r.program@ == "cargo"@,
        r.args.deep_view() == clippy_args(fix),
{
    let mut args: Vec<String> = Vec::new();
    push_arg(&mut args, "clippy");
    push_arg(&mut args, "--tests");
    push_arg(&mut args, "--all-features");
    push_arg(&mut args, "--all-targets");
    push_arg(&mut args, "--workspace");
    if fix {
        push_arg(&mut args, "--allow-staged");
        push_arg(&mut args, "--allow-dirty");
        push_arg(&mut args, "--fix");
    } else {
        push_arg(&mut args, "--");
        push_arg(&mut args, "-D");
        push_arg(&mut args, "warnings");
    }
    assert(args.deep_view() =~= clippy_args(fix));
    Invocation { program: String::from_str("cargo"), args }
}

/// The license-header command: check the headers, or rewrite them.
pub fn make_hawkeye_cmd(fix: bool) -> (r: Invocation)
    ensures
        r.program@ == "hawkeye"@,
        r.args.deep_view() == hawkeye_args(fix),
{
    let mut args: Vec<String> = Vec::new();
    if fix {
        push_arg(&mut args, "format");
        push_arg(&mut args, "--fail-if-updated=false");
    } else {
        push_arg(&mut args, "check");
    }
    assert(args.deep_view() =~= hawkeye_args(fix));
    Invocation { program: String::from_str("hawkeye"), args }
}

/// The spell-check command, with no arguments.
pub fn make_typos_cmd() -> (r: Invocation)
    ensures
        r.program@ == "typos"@,
        r.args.deep_view() == Seq::<Seq<char>>::empty(),
{
    let args: Vec<String> = Vec::new();
    assert(args.deep_view() =~= Seq::<Seq<char>>::empty());
    Invocation { program: String::from_str("typos"), args }
}

/// The TOML format command: check the manifests' formatting, or apply it.
pub fn make_taplo_cmd(fix: bool) -> (r: Invocation)
    ensures
        r.program@ == "taplo"@,
        r.args.deep_view() == taplo_args(fix),
{
    let mut args: Vec<String> = Vec::new();
    push_arg(&mut args, "format");
    if !fix {
        push_arg(&mut args, "--check");
    }
    assert(args.deep_view() =~= taplo_args(fix));
    Invocation { program: String::from_str("taplo"), args }
}

/// The command that installs a required tool that is absent.
pub fn make_install_cmd(crate_name: &str) -> (r: Invocation)
    ensures
        r.program@ == "cargo"@,
        r.args.deep_view() == seq!["install"@, crate_name@],
{
    let mut args: Vec<String> = Vec::new();
    push_arg(&mut args, "install");
    push_arg(&mut args, crate_name);
    assert(args.deep_view() =~= seq!["install"@, crate_name@]);
    Invocation { program: String::from_str("cargo"), args }
}

/// The package that provides a required lint tool, for the tools that are
/// installed on demand when absent from the search path.
pub fn tool_package(bin: &str) -> (r: Option<String>)
    ensures
        bin@ == "hawkeye"@ ==> r is Some && r->0@ == "hawkeye"@,
        bin@ == "typos"@ ==> r is Some && r->0@ == "typos-cli"@,
        bin@ == "taplo"@ ==> r is Some && r->0@ == "taplo-cli"@,
        bin@ != "hawkeye"@ && bin@ != "typos"@ && bin@ != "taplo"@ ==> r is None,
{
    proof {
        reveal_strlit("hawkeye");
        reveal_strlit("typos");
        reveal_strlit("taplo");
        assert("taplo"@ != "typos"@) by {
            assert("taplo"@[1] == 'a');
            assert("typos"@[1] == 'y');
        }
    }
    if str_eq(bin, "hawkeye") {
        Some(String::from_str("hawkeye"))
    } else if str_eq(bin, "typos") {
        Some(String::from_str("typos-cli"))
    } else if str_eq(bin, "taplo") {
        Some(String::from_str("taplo-cli"))
    } else {
        None
    }
}

/// The five lint checks, in the order the lint task runs them: clippy, the
/// format check, the TOML format check, the spell check, and the
/// license-header check.
pub fn lint_invocations(fix: bool) -> (r: Vec<Invocation>)
    ensures
        r@.len() == 5,
        r@[0].program@ == "cargo"@ && r@[0].args.deep_view() == clippy_args(fix),
        r@[1].program@ == "cargo"@ && r@[1].args.deep_view() == format_args(fix),
        r@[2].program@ == "taplo"@ && r@[2].args.deep_view() == taplo_args(fix),
        r@[3].program@ == "typos"@ && r@[3].args.deep_view() == Seq::<Seq<char>>::empty(),
        r@[4].program@ == "hawkeye"@ && r@[4].args.deep_view() == hawkeye_args(fix),
{
    let mut r: Vec<Invocation> = Vec::new();
    r.push(make_clippy_cmd(fix));
    r.push(make_format_cmd(fix));
    r.push(make_taplo_cmd(fix));
    r.push(make_typos_cmd());
    r.push(make_hawkeye_cmd(fix));
    r
}

} // verus!
