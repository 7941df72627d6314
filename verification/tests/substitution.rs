use xtask::subst::substitute;

#[test]
fn test_substitute_replaces_every_occurrence() {
    let (out, changed) = substitute("template and template", "template", "demo");
    assert_eq!(out, "demo and demo");
    assert!(changed);
}

#[test]
fn test_substitute_absent_pattern_is_identity() {
    let (out, changed) = substitute("nothing to see here", "template", "demo");
    assert_eq!(out, "nothing to see here");
    assert!(!changed);
}

#[test]
fn test_substitute_empty_text() {
    let (out, changed) = substitute("", "template", "demo");
    assert_eq!(out, "");
    assert!(!changed);
}

#[test]
fn test_substitute_whole_text() {
    let (out, changed) = substitute("template", "template", "demo");
    assert_eq!(out, "demo");
    assert!(changed);
}

#[test]
fn test_substitute_scans_left_to_right_without_overlap() {
    let (out, changed) = substitute("aaa", "aa", "b");
    assert_eq!(out, "ba");
    assert!(changed);
}

#[test]
fn test_substitute_twice_is_once() {
    let first = substitute("a template project", "template", "demo").0;
    let second = substitute(&first, "template", "demo").0;
    assert_eq!(second, first);
}

#[test]
fn test_substitute_twice_differs_when_a_seam_occurrence_appears() {
    // The pass can leave a fresh occurrence spanning the seam around a
    // replacement; a second pass then picks it up.
    let first = substitute("aabaa", "aba", "b").0;
    assert_eq!(first, "aba");
    let second = substitute(&first, "aba", "b").0;
    assert_eq!(second, "b");
}

#[test]
fn test_substitute_replacement_may_grow_text() {
    let (out, changed) = substitute("x/y/x", "x", "long-name");
    assert_eq!(out, "long-name/y/long-name");
    assert!(changed);
}

#[test]
fn test_substitute_reports_occurrence_even_when_unchanged() {
    let (out, changed) = substitute("same", "same", "same");
    assert_eq!(out, "same");
    assert!(changed);
}

#[test]
fn test_substitute_pattern_longer_than_text() {
    let (out, changed) = substitute("tem", "template", "demo");
    assert_eq!(out, "tem");
    assert!(!changed);
}

#[test]
fn test_substitute_with_empty_replacement() {
    let (out, changed) = substitute("a-b-c", "-", "");
    assert_eq!(out, "abc");
    assert!(changed);
}

#[test]
fn test_substitute_multibyte_characters() {
    let (out, changed) = substitute("größe and größe", "größe", "size");
    assert_eq!(out, "size and size");
    assert!(changed);
}
