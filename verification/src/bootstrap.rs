//! The bootstrap plan: which file gets which substitution, and the final
//! directory rename.
//!
//! Turning the template scaffold into a concrete project is a fixed,
//! ordered sequence of literal substitutions over a fixed set of files,
//! followed by renaming the `template` directory. The functions here
//! compute the new content of each file, the full substitution plan as
//! data, and the rename step; reading, writing and renaming on disk stay
//! with the caller.

use vstd::prelude::*;

use crate::subst::replaced;
use crate::subst::substitute;
use crate::text::trimmed;

verus! {

/// One substitution of the bootstrap plan: in the file at `file`, every
/// occurrence of `pattern` becomes `replacement`.
#[derive(Debug)]
pub struct SubstStep {
    pub file: String,
    pub pattern: String,
    pub replacement: String,
}

/// The directory rename that ends the bootstrap: `from` becomes `to`.
#[derive(Debug)]
pub struct DirRename {
    pub from: String,
    pub to: String,
}

/// New content of the root manifest: the organization placeholder segment
/// `/fast` becomes `/` and the account, then the `template` token becomes
/// the project name.
pub fn update_root_cargo_toml(content: &str, project_name: &str, github_account: &str) -> (r:
    String)
    ensures
        r@ == replaced(
            replaced(content@, "/fast"@, "/"@ + github_account@),
            "template"@,
            project_name@,
        ),
{
    proof {
        reveal_strlit("/fast");
        reveal_strlit("template");
    }
    let account_segment = String::from_str("/").concat(github_account);
    let step1 = substitute(content, "/fast", account_segment.as_str()).0;
    substitute(step1.as_str(), "template", project_name).0
}

/// New content of the template directory's manifest: the `template` token
/// becomes the project name.
pub fn update_project_cargo_toml(content: &str, project_name: &str) -> (r: String)
    ensures
        r@ == replaced(content@, "template"@, project_name@),
{
    proof {
        reveal_strlit("template");
    }
    substitute(content, "template", project_name).0
}

/// New content of the README: the organization placeholder segment `/fast`
/// becomes `/` and the account, then the template path segment `/template`
/// becomes `/` and the project name.
pub fn update_readme(content: &str, project_name: &str, github_account: &str) -> (r: String)
    ensures
        r@ == replaced(
            replaced(content@, "/fast"@, "/"@ + github_account@),
            "/template"@,
            "/"@ + project_name@,
        ),
{
    proof {
        reveal_strlit("/fast");
        reveal_strlit("/template");
    }
    let account_segment = String::from_str("/").concat(github_account);
    let project_segment = String::from_str("/").concat(project_name);
    let step1 = substitute(content, "/fast", account_segment.as_str()).0;
    substitute(step1.as_str(), "/template", project_segment.as_str()).0
}

/// New content of the CI semantic configuration: the combined placeholder
/// `/fast/template` becomes `/` account `/` project.
pub fn update_semantic_yml(content: &str, project_name: &str, github_account: &str) -> (r: String)
    ensures
        r@ == replaced(
            content@,
            "/fast/template"@,
            "/"@ + github_account@ + "/"@ + project_name@,
        ),
{
    proof {
        reveal_strlit("/fast/template");
    }
    let combined = String::from_str("/").concat(github_account).concat("/").concat(project_name);
    substitute(content, "/fast/template", combined.as_str()).0
}

/// New content of the lock file: the `template` token becomes the project
/// name.
pub fn update_cargo_lock(content: &str, project_name: &str) -> (r: String)
    ensures
        r@ == replaced(content@, "template"@, project_name@),
{
    proof {
        reveal_strlit("template");
    }
    substitute(content, "template", project_name).0
}

/// The content of the five files the bootstrap rewrites.
pub struct WorkspaceFiles {
    pub root_cargo_toml: String,
    pub project_cargo_toml: String,
    pub readme: String,
    pub semantic_yml: String,
    pub cargo_lock: String,
}

/// The whole rewrite of the bootstrap, over the content of every target
/// file at once: each file receives its fixed substitutions.
pub fn execute_bootstrap(files: &WorkspaceFiles, project_name: &str, github_account: &str) -> (r:
    WorkspaceFiles)
    ensures
        r.root_cargo_toml@ == replaced(
            replaced(files.root_cargo_toml@, "/fast"@, "/"@ + github_account@),
            "template"@,
            project_name@,
        ),
        r.project_cargo_toml@ == replaced(files.project_cargo_toml@, "template"@, project_name@),
        r.readme@ == replaced(
            replaced(files.readme@, "/fast"@, "/"@ + github_account@),
            "/template"@,
            "/"@ + project_name@,
        ),
        r.semantic_yml@ == replaced(
            files.semantic_yml@,
            "/fast/template"@,
            "/"@ + github_account@ + "/"@ + project_name@,
        ),
        r.cargo_lock@ == replaced(files.cargo_lock@, "template"@, project_name@),
{
    WorkspaceFiles {
        root_cargo_toml: update_root_cargo_toml(
            files.root_cargo_toml.as_str(),
            project_name,
            github_account,
        ),
        project_cargo_toml: update_project_cargo_toml(
            files.project_cargo_toml.as_str(),
            project_name,
        ),
        readme: update_readme(files.readme.as_str(), project_name, github_account),
        semantic_yml: update_semantic_yml(files.semantic_yml.as_str(), project_name, github_account),
        cargo_lock: update_cargo_lock(files.cargo_lock.as_str(), project_name),
    }
}

/// The full substitution plan, in order: the root manifest (organization,
/// then project), the template directory's manifest, the README
/// (organization, then project path), the CI semantic configuration, and
/// the lock file.
pub fn bootstrap_substitutions(project_name: &str, github_account: &str) -> (steps: Vec<SubstStep>)
    ensures
        steps@.len() == 7,
        steps@[0].file@ == "Cargo.toml"@ && steps@[0].pattern@ == "/fast"@
            && steps@[0].replacement@ == "/"@ + github_account@,
        steps@[1].file@ == "Cargo.toml"@ && steps@[1].pattern@ == "template"@
            && steps@[1].replacement@ == project_name@,
        steps@[2].file@ == "template/Cargo.toml"@ && steps@[2].pattern@ == "template"@
            && steps@[2].replacement@ == project_name@,
        steps@[3].file@ == "README.md"@ && steps@[3].pattern@ == "/fast"@
            && steps@[3].replacement@ == "/"@ + github_account@,
        steps@[4].file@ == "README.md"@ && steps@[4].pattern@ == "/template"@
            && steps@[4].replacement@ == "/"@ + project_name@,
        steps@[5].file@ == ".github/semantic.yml"@ && steps@[5].pattern@ == "/fast/template"@
            && steps@[5].replacement@ == "/"@ + github_account@ + "/"@ + project_name@,
        steps@[6].file@ == "Cargo.lock"@ && steps@[6].pattern@ == "template"@
            && steps@[6].replacement@ == project_name@,
        forall|k: int| 0 <= k < steps@.len() ==> (#[trigger] steps@[k].pattern@).len() > 0,
{
    proof {
        reveal_strlit("/fast");
        reveal_strlit("template");
        reveal_strlit("/template");
        reveal_strlit("/fast/template");
    }
    let mut steps: Vec<SubstStep> = Vec::new();
    steps.push(
        SubstStep {
            file: String::from_str("Cargo.toml"),
            pattern: String::from_str("/fast"),
            replacement: String::from_str("/").concat(github_account),
        },
    );
    steps.push(
        SubstStep {
            file: String::from_str("Cargo.toml"),
            pattern: String::from_str("template"),
            replacement: String::from_str(project_name),
        },
    );
    steps.push(
        SubstStep {
            file: String::from_str("template/Cargo.toml"),
            pattern: String::from_str("template"),
            replacement: String::from_str(project_name),
        },
    );
    steps.push(
        SubstStep {
            file: String::from_str("README.md"),
            pattern: String::from_str("/fast"),
            replacement: String::from_str("/").concat(github_account),
        },
    );
    steps.push(
        SubstStep {
            file: String::from_str("README.md"),
            pattern: String::from_str("/template"),
            replacement: String::from_str("/").concat(project_name),
        },
    );
    steps.push(
        SubstStep {
            file: String::from_str(".github/semantic.yml"),
            pattern: String::from_str("/fast/template"),
            replacement: String::from_str("/").concat(github_account).concat("/").concat(
                project_name,
            ),
        },
    );
    steps.push(
        SubstStep {
            file: String::from_str("Cargo.lock"),
            pattern: String::from_str("template"),
            replacement: String::from_str(project_name),
        },
    );
    steps
}

/// The rename step that ends the bootstrap: the `template` directory
/// becomes the project directory. A directory already standing at the
/// target path is a named collision, and the step fails without touching
/// either directory.
pub fn plan_directory_rename(project_name: &str, target_exists: bool) -> (r: Result<
    DirRename,
    String,
>)
    ensures
        target_exists ==> r is Err && r->Err_0@ == "Directory '"@ + project_name@
            + "' already exists"@,
        !target_exists ==> r is Ok && r->Ok_0.from@ == "template"@ && r->Ok_0.to@
            == project_name@,
{
    if target_exists {
        let msg = String::from_str("Directory '").concat(project_name).concat("' already exists");
        Err(msg)
    } else {
        Ok(DirRename { from: String::from_str("template"), to: String::from_str(project_name) })
    }
}

/// Decides whether the tool stands in the project root: the root manifest
/// and the task-runner directory must be there, and the `template`
/// directory must still exist (it is gone once the project has been
/// bootstrapped).
pub fn check_project_root(has_root_manifest: bool, has_xtask_dir: bool, has_template_dir: bool) -> (
    r: Result<(), String>)
    ensures
        r is Ok <==> (has_root_manifest && has_xtask_dir && has_template_dir),
        !(has_root_manifest && has_xtask_dir) ==> r is Err && r->Err_0@
            == "This command must be run from the project root directory"@,
        (has_root_manifest && has_xtask_dir && !has_template_dir) ==> r is Err && r->Err_0@
            == "The 'template' directory not found. This project may have already been bootstrapped."@,
{
    if !has_root_manifest || !has_xtask_dir {
        Err(String::from_str("This command must be run from the project root directory"))
    } else if !has_template_dir {
        Err(
            String::from_str(
                "The 'template' directory not found. This project may have already been bootstrapped.",
            ),
        )
    } else {
        Ok(())
    }
}

/// Whether `c` is `lower` itself or its ASCII upper-case form.
pub open spec fn yes_char(c: char, lower: char) -> bool {
    c == lower || c as u32 + 0x20 == lower as u32
}

/// The trimmed input spells `y` or `yes`, in any ASCII case.
pub open spec fn is_yes_answer(s: Seq<char>) -> bool {
    let t = trimmed(s);
    (t.len() == 1 && yes_char(t[0], 'y')) || (t.len() == 3 && yes_char(t[0], 'y') && yes_char(
        t[1],
        'e',
    ) && yes_char(t[2], 's'))
}

/// Reads an operator's answer to a continue-or-cancel question: after
/// trimming, `y` or `yes` in any ASCII case means yes, anything else no.
pub fn parse_confirmation(input: &str) -> (b: bool)
    ensures
        b == is_yes_answer(input@),
{
    let t = crate::text::trim_str(input);
    let n = t.as_str().unicode_len();
    if n == 1 {
        let c = t.as_str().get_char(0);
        c == 'y' || c == 'Y'
    } else if n == 3 {
        let c0 = t.as_str().get_char(0);
        let c1 = t.as_str().get_char(1);
        let c2 = t.as_str().get_char(2);
        (c0 == 'y' || c0 == 'Y') && (c1 == 'e' || c1 == 'E') && (c2 == 's' || c2 == 'S')
    } else {
        false
    }
}

} // verus!
