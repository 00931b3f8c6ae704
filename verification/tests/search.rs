use std::collections::{HashMap, HashSet};

use alpharing_launcher::game_search::{find_game_path, start_game_search, SearchAction, SearchAnswer};
use alpharing_launcher::platform::Platform;

/// Drives a search against an in-memory filesystem and returns the actions
/// it asked for and its outcome.
fn run(
    p: Platform,
    roots: Vec<&str>,
    dirs: &HashSet<String>,
    files: &HashMap<String, String>,
) -> (Vec<String>, Option<String>) {
    let mut search = start_game_search(p, roots.into_iter().map(String::from).collect());
    let mut action = search.pending_action();
    let mut asked = Vec::new();
    loop {
        let answer = match action {
            SearchAction::Found(g) => return (asked, Some(g)),
            SearchAction::NotFound => return (asked, None),
            SearchAction::IsDir(path) => {
                asked.push(format!("dir {path}"));
                SearchAnswer::IsDir(dirs.contains(&path))
            }
            SearchAction::ReadLibraryFolders(path) => {
                asked.push(format!("read {path}"));
                SearchAnswer::LibraryFolders(files.get(&path).cloned())
            }
        };
        let (next, a) = find_game_path(search, answer);
        search = next;
        action = a;
    }
}

#[test]
fn search_without_roots_finds_nothing() {
    let (asked, found) = run(Platform::Linux, vec![], &HashSet::new(), &HashMap::new());
    assert!(asked.is_empty());
    assert_eq!(found, None);
}

#[test]
fn search_skips_roots_without_steamapps() {
    let dirs: HashSet<String> = ["/b/steamapps", "/b/steamapps/common/Halo The Master Chief Collection"]
        .iter()
        .map(|s| s.to_string())
        .collect();
    let (asked, found) = run(Platform::Linux, vec!["/a", "/b"], &dirs, &HashMap::new());
    assert_eq!(
        asked,
        vec![
            "dir /a/steamapps".to_string(),
            "dir /b/steamapps".to_string(),
            "read /b/steamapps/libraryfolders.vdf".to_string(),
            "dir /b/steamapps/common/Halo The Master Chief Collection".to_string(),
        ]
    );
    assert_eq!(found, Some("/b/steamapps/common/Halo The Master Chief Collection".to_string()));
}

#[test]
fn search_follows_library_folders() {
    let dirs: HashSet<String> = ["/a/steamapps", "/mnt/lib2/steamapps/common/Halo The Master Chief Collection"]
        .iter()
        .map(|s| s.to_string())
        .collect();
    let mut files = HashMap::new();
    files.insert(
        "/a/steamapps/libraryfolders.vdf".to_string(),
        "\"path\" \"/mnt/lib1\"\n\"path\" \"/mnt/lib2\"\n".to_string(),
    );
    let (asked, found) = run(Platform::Linux, vec!["/a", "/b"], &dirs, &files);
    assert_eq!(asked.len(), 5);
    assert_eq!(found, Some("/mnt/lib2/steamapps/common/Halo The Master Chief Collection".to_string()));
}

#[test]
fn search_moves_to_next_root_when_libraries_lack_game() {
    let dirs: HashSet<String> = ["/a/steamapps", "/b/steamapps"].iter().map(|s| s.to_string()).collect();
    let (asked, found) = run(Platform::Linux, vec!["/a", "/b"], &dirs, &HashMap::new());
    assert_eq!(asked.len(), 6);
    assert_eq!(found, None);
}

#[test]
fn search_on_windows_uses_backslash() {
    let dirs: HashSet<String> = [
        "D:/Steam\\steamapps",
        "D:/Steam\\steamapps/common/Halo The Master Chief Collection",
    ]
    .iter()
    .map(|s| s.to_string())
    .collect();
    let (_, found) = run(Platform::Windows, vec!["C:/x", "D:/Steam"], &dirs, &HashMap::new());
    assert_eq!(found, Some("D:/Steam\\steamapps/common/Halo The Master Chief Collection".to_string()));
}

#[test]
fn search_ignores_answers_of_the_wrong_kind() {
    let search = start_game_search(Platform::Linux, vec!["/a".to_string()]);
    let (search, action) = find_game_path(search, SearchAnswer::LibraryFolders(None));
    match action {
        SearchAction::IsDir(p) => assert_eq!(p, "/a/steamapps"),
        other => panic!("unexpected {other:?}"),
    }
    let (_, action) = find_game_path(search, SearchAnswer::IsDir(false));
    assert!(matches!(action, SearchAction::NotFound));
}
