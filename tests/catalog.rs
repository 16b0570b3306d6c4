use fossintosh::catalog::{
    app_matches, apps_file_candidates, download_file_path, get_apps_file_path,
    get_downloads_directory, search_apps, App,
};
use fossintosh::text::{concat_strs, decimal_chars, join_path};

fn s(x: &str) -> String {
    x.to_string()
}

fn app(id: &str, name: &str, description: &str, category: &str) -> App {
    App {
        id: s(id),
        name: s(name),
        description: s(description),
        version: s("1.0"),
        category: s(category),
        icon: s(""),
        download_url: s(""),
        homepage: s(""),
        license: s("MIT"),
        author: s(""),
        screenshots: Vec::new(),
        installed_version: None,
        has_update: None,
    }
}

#[test]
fn apps_file_is_the_first_that_exists() {
    assert_eq!(apps_file_candidates(), vec![s("apps.json"), s("src-tauri/apps.json"), s("../apps.json")]);
    assert_eq!(get_apps_file_path(&vec![false, true, true]), "src-tauri/apps.json");
    assert_eq!(get_apps_file_path(&vec![false, false, true]), "../apps.json");
    assert_eq!(get_apps_file_path(&vec![true, true, true]), "apps.json");
    assert_eq!(get_apps_file_path(&vec![false, false, false]), "apps.json");
    assert_eq!(get_apps_file_path(&vec![]), "apps.json");
}

#[test]
fn downloads_go_under_home() {
    assert_eq!(get_downloads_directory(&Ok(s("/Users/me"))), Ok(s("/Users/me/Downloads")));
    assert_eq!(get_downloads_directory(&Ok(s("/Users/me/"))), Ok(s("/Users/me/Downloads")));
    assert_eq!(get_downloads_directory(&Err(s("unset"))), Err(s("Failed to get HOME: unset")));
    assert_eq!(download_file_path("/Users/me/Downloads", "vlc"), "/Users/me/Downloads/vlc.dmg");
}

#[test]
fn search_ignores_case_and_keeps_order() {
    let apps = vec![
        app("a", "Firefox", "Web browser", "Internet"),
        app("b", "GIMP", "Image editor", "Graphics"),
        app("c", "Thunderbird", "Mail client", "internet"),
    ];
    assert!(app_matches(&apps[0], "FIRE"));
    assert!(!app_matches(&apps[1], "fire"));
    let found = search_apps(apps, "INTERNET");
    let ids: Vec<String> = found.iter().map(|a| a.id.clone()).collect();
    assert_eq!(ids, vec![s("a"), s("c")]);
}

#[test]
fn empty_query_matches_everything() {
    let apps = vec![app("a", "A", "", ""), app("b", "B", "", "")];
    assert_eq!(search_apps(apps, "").len(), 2);
}

#[test]
fn path_joining_follows_unix_rules() {
    assert_eq!(join_path("/a", "b"), "/a/b");
    assert_eq!(join_path("/a/", "b"), "/a/b");
    assert_eq!(join_path("/a", "/b"), "/b");
    assert_eq!(join_path("", "b"), "b");
    assert_eq!(concat_strs("ab", "cd"), "abcd");
}

#[test]
fn decimal_digits() {
    assert_eq!(decimal_chars(0), vec!['0']);
    assert_eq!(decimal_chars(1205), vec!['1', '2', '0', '5']);
    assert_eq!(decimal_chars(u128::MAX).len(), 39);
}
