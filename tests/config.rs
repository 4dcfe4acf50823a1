use fitgirl_ecoqos::config::Config;

#[test]
fn default_denylist() {
    let c = Config::default();
    assert_eq!(
        c.blacklist,
        vec![
            "cls-magic2_x64.exe",
            "cls-magic2_x86.exe",
            "cls-magic2l_x64.exe",
            "cls-magic2l_x86.exe",
            "oo2reck.exe",
            "rz.exe",
            "xtool.exe",
        ]
    );
    assert!(c.blacklist_regex.is_empty());
}
