use fitgirl_ecoqos::error::Error;
use fitgirl_ecoqos::matcher::Matcher;

fn names(v: &[&str]) -> Vec<String> {
    v.iter().map(|s| s.to_string()).collect()
}

#[test]
fn exact_names_match_others_do_not() {
    let m = Matcher::new(names(&["helper.exe", "rz.exe"]), &Vec::new()).unwrap();
    assert!(m.matches("helper.exe"));
    assert!(m.matches("rz.exe"));
    assert!(!m.matches("other.exe"));
    assert!(!m.matches("helper.exe2"));
    assert!(!m.matches(""));
}

#[test]
fn exact_matching_is_case_sensitive() {
    let m = Matcher::new(names(&["helper.exe"]), &Vec::new()).unwrap();
    assert!(!m.matches("Helper.exe"));
    assert!(!m.matches("HELPER.EXE"));
    assert!(m.is_listed("helper.exe"));
    assert!(!m.is_listed("Helper.exe"));
}

#[test]
fn empty_denylist_matches_nothing() {
    let m = Matcher::new(Vec::new(), &Vec::new()).unwrap();
    assert!(!m.matches("helper.exe"));
    assert!(!m.matches(""));
}

#[test]
fn patterns_match_after_exact_names() {
    let m = Matcher::new(names(&["helper.exe"]), &names(&["^tmp.*\\.exe$"])).unwrap();
    assert!(m.matches("tmp123.exe"));
    assert!(m.matches("helper.exe"));
    assert!(!m.is_listed("tmp123.exe"));
    assert!(!m.matches("xtmp123.exe"));
    assert!(!m.matches("tmp123.exe.bak"));
    assert!(!m.matches("TMP123.exe"));
}

#[test]
fn pattern_case_follows_its_flags() {
    let m = Matcher::new(Vec::new(), &names(&["(?i)^tmp.*\\.exe$"])).unwrap();
    assert!(m.matches("TMP123.EXE"));
    assert!(m.matches("tmp1.exe"));
}

#[test]
fn unanchored_pattern_matches_anywhere() {
    let m = Matcher::new(Vec::new(), &names(&["magic"])).unwrap();
    assert!(m.matches("cls-magic2_x64.exe"));
    assert!(!m.matches("cls-mag1c.exe"));
}

#[test]
fn invalid_pattern_is_rejected() {
    let r = Matcher::new(names(&["helper.exe"]), &names(&["^ok$", "(unclosed"]));
    assert!(matches!(r, Err(Error::InvalidPattern)));
}
