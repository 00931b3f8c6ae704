use alpharing_launcher::app_paths::{app_paths_lock, get_app_paths, set_app_paths};
use alpharing_launcher::game_search::{check_os, detection_opening_logs};
use alpharing_launcher::library_folders::parse_library_folders;
use alpharing_launcher::platform::{path_join, Platform};
use alpharing_launcher::steam_roots::steam_root_candidates;

#[test]
fn join_inserts_platform_separator() {
    assert_eq!(path_join(Platform::Linux, "/home/me", "steamapps"), "/home/me/steamapps");
    assert_eq!(path_join(Platform::Windows, "D:/SteamLibrary", "steamapps"), "D:/SteamLibrary\\steamapps");
}

#[test]
fn join_skips_separator_after_separator_or_empty_base() {
    assert_eq!(path_join(Platform::Linux, "/home/me/", "x"), "/home/me/x");
    assert_eq!(path_join(Platform::Linux, "", ".steam/root"), ".steam/root");
    assert_eq!(path_join(Platform::Windows, "C:\\Games\\", "x"), "C:\\Games\\x");
    assert_eq!(path_join(Platform::Windows, "C:", "x"), "C:x");
    assert_eq!(path_join(Platform::Linux, "C:", "x"), "C:/x");
}

#[test]
fn paths_are_missing_before_detection() {
    let lock = app_paths_lock();
    assert_eq!(
        get_app_paths(&lock),
        Err("Game path has not been detected yet; run checkOs first".to_string())
    );
}

#[test]
fn recorded_paths_are_read_back() {
    let mut lock = app_paths_lock();
    set_app_paths(&mut lock, Platform::Linux, "/games/mcc".to_string());
    assert_eq!(
        get_app_paths(&lock),
        Ok(("/games/mcc".to_string(), "/games/mcc/alpha_ring".to_string()))
    );
    set_app_paths(&mut lock, Platform::Windows, "D:\\mcc".to_string());
    assert_eq!(
        get_app_paths(&lock),
        Ok(("D:\\mcc".to_string(), "D:\\mcc\\alpha_ring".to_string()))
    );
}

#[test]
fn check_os_records_found_game() {
    let mut lock = app_paths_lock();
    let r = check_os(&mut lock, Platform::Linux, Some("/lib/steamapps/common/Halo The Master Chief Collection".to_string()));
    assert_eq!(
        r,
        Ok("Found game installation at /lib/steamapps/common/Halo The Master Chief Collection".to_string())
    );
    assert_eq!(
        get_app_paths(&lock).unwrap().1,
        "/lib/steamapps/common/Halo The Master Chief Collection/alpha_ring"
    );
}

#[test]
fn check_os_fails_when_not_found() {
    let mut lock = app_paths_lock();
    assert_eq!(check_os(&mut lock, Platform::Windows, None), Err("Couldn't find MCC".to_string()));
    assert!(get_app_paths(&lock).is_err());
}

#[test]
fn detection_logs_name_the_platform() {
    assert_eq!(
        detection_opening_logs(Platform::Windows),
        vec!["Running Windows version".to_string(), "Checking MCC installation...".to_string()]
    );
    assert_eq!(detection_opening_logs(Platform::Linux)[0], "Running Linux version");
}

#[test]
fn linux_roots_follow_home() {
    let roots = steam_root_candidates(Platform::Linux, Some("/home/me".to_string()));
    assert_eq!(
        roots,
        vec![
            "/home/me/.local/share/Steam".to_string(),
            "/home/me/.steam/steam".to_string(),
            "/home/me/.steam/root".to_string(),
            "/home/me/.var/app/com.valvesoftware.Steam/data/Steam".to_string(),
        ]
    );
    assert!(steam_root_candidates(Platform::Linux, None).is_empty());
}

#[test]
fn windows_roots_cover_every_drive() {
    let roots = steam_root_candidates(Platform::Windows, None);
    assert_eq!(roots.len(), 48);
    assert_eq!(roots[0], "C:/Program Files (x86)/Steam");
    assert_eq!(roots[1], "C:/Program Files/Steam");
    assert_eq!(roots[2], "D:/Steam");
    assert_eq!(roots[3], "D:/SteamLibrary");
    assert_eq!(roots[46], "Z:/Steam");
    assert_eq!(roots[47], "Z:/SteamLibrary");
}

#[test]
fn library_folders_are_read_in_order() {
    let vdf = "\"libraryfolders\"\n{\n\t\"0\"\n\t{\n\t\t\"path\"\t\t\"C:\\\\Program Files (x86)\\\\Steam\"\n\t\t\"label\"\t\t\"\"\n\t}\n\t\"1\"\n\t{\n\t\t\"path\"\t\t\"D:\\\\SteamLibrary\"\n\t}\n}\n";
    assert_eq!(
        parse_library_folders(vdf),
        vec!["C:\\\\Program Files (x86)\\\\Steam".to_string(), "D:\\\\SteamLibrary".to_string()]
    );
}

#[test]
fn library_folders_handle_crlf_and_missing_quotes() {
    let vdf = "  \"path\" \"/mnt/games\"\r\n\"path\"\n\"path\" \"unterminated\r\n\"pathology\" \"x\"\n\"label\" \"path\"";
    assert_eq!(
        parse_library_folders(vdf),
        vec!["/mnt/games".to_string(), "unterminated".to_string()]
    );
}

#[test]
fn library_folders_keep_final_carriage_return_without_newline() {
    assert_eq!(parse_library_folders("\"path\" \"abc\r"), vec!["abc\r".to_string()]);
    assert!(parse_library_folders("").is_empty());
    assert_eq!(parse_library_folders("\u{3000}\"path\" \"wide\""), vec!["wide".to_string()]);
}
