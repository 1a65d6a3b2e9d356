use flow::slug::{ascii_fold, slugify, MAX_SLUG_LEN};

#[test]
fn slug_lowercases_and_kebabs() {
    assert_eq!(slugify("Fix the Login Bug"), "fix-the-login-bug");
}

#[test]
fn slug_collapses_separators() {
    assert_eq!(slugify("a   b___c"), "a-b-c");
}

#[test]
fn slug_trims_trailing_dashes() {
    assert_eq!(slugify("hello!!!"), "hello");
}

#[test]
fn slug_handles_empty() {
    assert_eq!(slugify("   "), "");
    assert_eq!(slugify(""), "");
}

#[test]
fn slug_truncates_to_max_len() {
    let s = slugify(&"a".repeat(200));
    assert_eq!(s.len(), MAX_SLUG_LEN);
}

#[test]
fn slug_folds_diacritics() {
    assert_eq!(slugify("Crème brûlée"), "creme-brulee");
}

#[test]
fn slug_shape_on_awkward_input() {
    for input in ["--Hello, World!--", "ÀÉÎÕÜ çñ", "日本語 text 42", "a-".repeat(40).as_str(), "___"] {
        let s = slugify(input);
        assert!(s.chars().all(|c| c.is_ascii_lowercase() || c.is_ascii_digit() || c == '-'));
        assert!(!s.starts_with('-'));
        assert!(!s.ends_with('-'));
        assert!(s.len() <= MAX_SLUG_LEN);
    }
    assert_eq!(slugify("日本語 text 42"), "text-42");
    assert_eq!(slugify("àéîõü çñ"), "aeiou-cn");
    assert_eq!(slugify("ÀÉÎÕÜ çñ"), "cn");
}

#[test]
fn slug_truncation_drops_a_dash_left_at_the_cut() {
    let input = format!("{} bc", "a".repeat(49));
    assert_eq!(slugify(&input), "a".repeat(49));
}

#[test]
fn fold_maps_accented_letters() {
    assert_eq!(ascii_fold('é'), Some('e'));
    assert_eq!(ascii_fold('ç'), Some('c'));
    assert_eq!(ascii_fold('Ç'), None);
    assert_eq!(ascii_fold('ß'), Some('s'));
    assert_eq!(ascii_fold('z'), None);
}

#[test]
fn slugifying_a_slug_changes_nothing() {
    for input in ["Fix the Login Bug", "  --a__b--  ", "Crème brûlée", &"x y ".repeat(30)] {
        let once = slugify(input);
        assert_eq!(slugify(&once), once);
    }
}
