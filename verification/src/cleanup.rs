//! Decisions of the bootstrap cleanup.
//!
//! Once a project is bootstrapped, the scaffolding can be removed from the
//! task runner's manifest: the `bootstrap` entry leaves the default feature
//! list, and the dependencies that only the bootstrap needed are dropped.
//! The caller edits the manifest; the functions here decide what to remove.

use vstd::prelude::*;

use crate::text::str_eq;

verus! {

/// The position of the `bootstrap` entry in a default feature list: the
/// first element that equals `bootstrap`, when there is one.
pub fn bootstrap_feature_index(features: &Vec<String>) -> (r: Option<usize>)
    ensures
        match r {
            Some(i) => i < features@.len() && features@[i as int]@ == "bootstrap"@ && forall|
                j: int,
            |
                0 <= j < i ==> (#[trigger] features@[j])@ != "bootstrap"@,
            None => forall|j: int|
                0 <= j < features@.len() ==> (#[trigger] features@[j])@ != "bootstrap"@,
        },
{
    let n = features.len();
    let mut i: usize = 0;
    while i < n
        invariant
            n == features@.len(),
            i <= n,
            forall|j: int| 0 <= j < i ==> (#[trigger] features@[j])@ != "bootstrap"@,
        decreases n - i,
    {
        if str_eq(features[i].as_str(), "bootstrap") {
            return Some(i);
        }
        i = i + 1;
    }
    None
}

/// The dependencies that only the bootstrap needs, in the order the
/// cleanup removes them.
pub fn bootstrap_dependency_names() -> (r: Vec<String>)
    ensures
        r.deep_view() == seq!["toml_edit"@, "colored"@, "dialoguer"@],
{
    let mut r: Vec<String> = Vec::new();
    r.push(String::from_str("toml_edit"));
    r.push(String::from_str("colored"));
    r.push(String::from_str("dialoguer"));
    assert(r.deep_view() =~= seq!["toml_edit"@, "colored"@, "dialoguer"@]);
    r
}

} // verus!
