use kopuz::applemusic::discover::{
    cdm_file_name, locate, newest_cdm, override_cdm, search_roots, version_at_most, version_key,
    Platform, SearchEnv, SearchRoot, MAX_SEARCH_DEPTH,
};

#[test]
fn cdm_file_name_matches_platform() {
    assert_eq!(cdm_file_name(Platform::Windows), "widevinecdm.dll");
    assert_eq!(cdm_file_name(Platform::MacOs), "libwidevinecdm.dylib");
    assert_eq!(cdm_file_name(Platform::Linux), "libwidevinecdm.so");
}

#[test]
fn version_key_orders_numerically_not_lexically() {
    // The bug this guards: "4.10.999" sorts above "4.10.3050" as a string.
    let older = "/x/gmp-widevinecdm/4.10.999.0/libwidevinecdm.so";
    let newer = "/x/gmp-widevinecdm/4.10.3050.0/libwidevinecdm.so";
    assert!(version_key(newer, Platform::Linux) > version_key(older, Platform::Linux));
}

#[test]
fn version_key_reads_chromium_layout() {
    let p = "/opt/google/chrome/WidevineCdm/4.10.2891.0/_platform_specific/linux_x64/libwidevinecdm.so";
    assert_eq!(version_key(p, Platform::Linux), vec![4, 10, 2891, 0]);
}

#[test]
fn version_key_needs_three_numeric_parts() {
    assert_eq!(version_key("/x/1.2/lib.so", Platform::Linux), Vec::<u64>::new());
    assert_eq!(version_key("/x/1..2/lib.so", Platform::Linux), Vec::<u64>::new());
    assert_eq!(version_key("/x/v1.2.3/lib.so", Platform::Linux), Vec::<u64>::new());
    // The first version-like component counts.
    assert_eq!(version_key("/1.2.3/x/4.5.6/lib.so", Platform::Linux), vec![1, 2, 3]);
    // Windows separators split components on Windows only.
    assert_eq!(version_key("C:\\Chrome\\4.10.2891.0\\widevinecdm.dll", Platform::Windows), vec![4, 10, 2891, 0]);
    // On Unix a backslash is an ordinary character of a component.
    assert_eq!(version_key("C:\\Chrome\\4.10.2891.0\\widevinecdm.dll", Platform::Linux), Vec::<u64>::new());
    assert_eq!(version_key("/x/a\\4.1.2/lib.so", Platform::Linux), Vec::<u64>::new());
    // A part too large for a u64 is left out.
    assert_eq!(version_key("/x/1.99999999999999999999999.3/lib.so", Platform::Linux), vec![1, 3]);
}

#[test]
fn versions_compare_number_by_number() {
    assert!(version_at_most(&vec![4, 10, 999], &vec![4, 10, 3050]));
    assert!(!version_at_most(&vec![4, 10, 3050], &vec![4, 10, 999]));
    assert!(version_at_most(&vec![4, 10], &vec![4, 10, 0]));
    assert!(version_at_most(&vec![], &vec![]));
}

#[test]
fn the_newest_version_wins_and_ties_go_to_the_last_found() {
    let ff = "/tmp/profile/gmp-widevinecdm/4.10.3050.0/libwidevinecdm.so".to_string();
    let cr = "/tmp/WidevineCdm/4.10.2891.0/_platform_specific/linux_x64/libwidevinecdm.so".to_string();
    assert_eq!(newest_cdm(&vec![ff.clone(), cr.clone()], Platform::Linux), Some(ff.clone()));
    assert_eq!(newest_cdm(&vec![cr.clone(), ff.clone()], Platform::Linux), Some(ff.clone()));
    assert_eq!(newest_cdm(&vec![], Platform::Linux), None);
    let a = "/a/libwidevinecdm.so".to_string();
    let b = "/b/libwidevinecdm.so".to_string();
    assert_eq!(newest_cdm(&vec![a, b.clone()], Platform::Linux), Some(b));
}

#[test]
fn an_override_that_names_a_file_is_taken_as_it_is() {
    let found = vec!["/o/1.2.3/libwidevinecdm.so".to_string()];
    assert_eq!(override_cdm(Platform::Linux, Some("/o/cdm.so".into()), true, &found), Some("/o/cdm.so".to_string()));
    assert_eq!(override_cdm(Platform::Linux, Some("/o".into()), false, &found), Some(found[0].clone()));
    assert_eq!(override_cdm(Platform::Linux, Some("/o".into()), false, &vec![]), None);
    assert_eq!(override_cdm(Platform::Linux, None, false, &found), None);
}

#[test]
fn locate_takes_the_override_then_the_first_root_with_a_cdm() {
    let roots = vec![
        vec![],
        vec![
            "/r1/4.10.1.0/libwidevinecdm.so".to_string(),
            "/r1/4.10.2.0/libwidevinecdm.so".to_string(),
        ],
        vec!["/r2/9.9.9.9/libwidevinecdm.so".to_string()],
    ];
    assert_eq!(locate(Platform::Linux, None, &roots), Some("/r1/4.10.2.0/libwidevinecdm.so".to_string()));
    assert_eq!(locate(Platform::Linux, Some("/mine.so".into()), &roots), Some("/mine.so".to_string()));
    assert_eq!(locate(Platform::Linux, None, &vec![vec![], vec![]]), None);
}

fn env() -> SearchEnv {
    SearchEnv {
        home: Some("/home/u".into()),
        user_profile: None,
        app_data: Some("C:/AppData".into()),
        local_app_data: None,
        program_files: Some("C:/PF".into()),
        program_files_x86: None,
    }
}

#[test]
fn search_roots_list_firefox_before_chromium() {
    let roots = search_roots(Platform::Linux, &env());
    assert_eq!(roots.len(), 16);
    match &roots[0] {
        SearchRoot::Under { base, dir } => {
            assert_eq!(base, "/home/u");
            assert_eq!(dir, ".mozilla/firefox");
        }
        other => panic!("{other:?}"),
    }
    match &roots[15] {
        SearchRoot::At(dir) => assert_eq!(dir, "/usr/lib/chromium-browser/WidevineCdm"),
        other => panic!("{other:?}"),
    }

    let homeless = SearchEnv { home: None, ..env() };
    assert_eq!(search_roots(Platform::Linux, &homeless).len(), 5);

    let windows = search_roots(Platform::Windows, &env());
    assert_eq!(windows.len(), 5);
    assert!(search_roots(Platform::Other, &env()).is_empty());
    assert_eq!(search_roots(Platform::MacOs, &env()).len(), 9);
    assert_eq!(MAX_SEARCH_DEPTH, 4);
}
