use std::collections::{HashMap, HashSet};

use alpharing_launcher::app_paths::{app_paths_lock, set_app_paths};
use alpharing_launcher::mod_check::{check_mod, mod_check_step, ModEffect, ModEvent};
use alpharing_launcher::platform::Platform;

const GAME: &str = "/g";
const MOD_DIR: &str = "/g/MCC/Binaries/Win64";
const MOD_DLL: &str = "/g/MCC/Binaries/Win64/WTSAPI32.dll";
const PARKED_DLL: &str = "/g/alpha_ring/WTSAPI32.dll";

/// An in-memory filesystem plus the latest release's mod bytes.
struct World {
    dirs: HashSet<String>,
    files: HashMap<String, Vec<u8>>,
    latest: Result<Vec<u8>, String>,
    fail_rename: bool,
    logs: Vec<String>,
    fetches: usize,
    launched: Option<Vec<String>>,
}

impl World {
    fn new() -> World {
        let mut dirs = HashSet::new();
        dirs.insert(GAME.to_string());
        dirs.insert(MOD_DIR.to_string());
        World {
            dirs,
            files: HashMap::new(),
            latest: Ok(b"new mod".to_vec()),
            fail_rename: false,
            logs: Vec::new(),
            fetches: 0,
            launched: None,
        }
    }

    fn run(&mut self, vanilla: bool) -> Result<(), String> {
        self.run_recording(vanilla).0
    }

    fn run_recording(&mut self, vanilla: bool) -> (Result<(), String>, Option<String>) {
        let mut lock = app_paths_lock();
        set_app_paths(&mut lock, Platform::Linux, GAME.to_string());
        let (mut check, mut action) = check_mod(&lock, Platform::Linux, vanilla);
        loop {
            if let Some(line) = action.log {
                self.logs.push(line);
            }
            let event = match action.effect {
                ModEffect::Finish(r) => return (r, check.installed_path()),
                ModEffect::CheckExists(p) => ModEvent::Flag(self.dirs.contains(&p) || self.files.contains_key(&p)),
                ModEffect::CheckIsDir(p) => ModEvent::Flag(self.dirs.contains(&p)),
                ModEffect::CreateDirAll(p) => {
                    self.dirs.insert(p);
                    ModEvent::Done
                }
                ModEffect::Rename(from, to) => {
                    if self.fail_rename {
                        ModEvent::Failed("rename refused".to_string())
                    } else {
                        match self.files.remove(&from) {
                            Some(b) => {
                                self.files.insert(to, b);
                                ModEvent::Done
                            }
                            None => ModEvent::Failed("missing".to_string()),
                        }
                    }
                }
                ModEffect::FetchLatestAsset => {
                    self.fetches += 1;
                    match &self.latest {
                        Ok(b) => ModEvent::Bytes(b.clone()),
                        Err(e) => ModEvent::Failed(e.clone()),
                    }
                }
                ModEffect::ReadFile(p) => match self.files.get(&p) {
                    Some(b) => ModEvent::Bytes(b.clone()),
                    None => ModEvent::Failed("unreadable".to_string()),
                },
                ModEffect::WriteFile(p, b) => {
                    self.files.insert(p, b);
                    ModEvent::Done
                }
                ModEffect::Spawn(cmd) => {
                    self.launched = Some(cmd.args.clone());
                    ModEvent::Done
                }
            };
            assert!(check.accepts(&event));
            let (next, a) = mod_check_step(check, event);
            check = next;
            action = a;
        }
    }
}

#[test]
fn check_without_detected_paths_fails() {
    let lock = app_paths_lock();
    let (check, action) = check_mod(&lock, Platform::Linux, false);
    assert!(check.is_finished());
    assert!(action.log.is_none());
    match action.effect {
        ModEffect::Finish(Err(e)) => assert_eq!(e, "Game path has not been detected yet; run checkOs first"),
        other => panic!("unexpected {other:?}"),
    }
}

#[test]
fn up_to_date_mod_is_kept() {
    let mut w = World::new();
    w.files.insert(MOD_DLL.to_string(), b"new mod".to_vec());
    w.files.insert("/g/alpha_ring/alpha_ring_menu.cfg".to_string(), b"cfg".to_vec());
    w.dirs.insert("/g/alpha_ring".to_string());
    assert_eq!(w.run(false), Ok(()));
    assert_eq!(w.logs, vec!["Checking installed mod version...", "Mod is up to date.", "Launching MCC..."]);
    assert_eq!(w.fetches, 1);
    assert_eq!(w.files.get(MOD_DLL), Some(&b"new mod".to_vec()));
    assert!(w.files.contains_key("/g/MCC/Binaries/Win64/alpha_ring_menu.cfg"));
    assert_eq!(w.launched, Some(vec!["-applaunch".to_string(), "976730".to_string(), "-eac".to_string()]));
}

#[test]
fn outdated_mod_is_replaced_by_parked_copy() {
    let mut w = World::new();
    w.files.insert(MOD_DLL.to_string(), b"old mod".to_vec());
    w.files.insert(PARKED_DLL.to_string(), b"parked mod".to_vec());
    assert_eq!(w.run(false), Ok(()));
    assert_eq!(
        w.logs,
        vec!["Checking installed mod version...", "Restoring cached mod files...", "Launching MCC..."]
    );
    assert_eq!(w.files.get(MOD_DLL), Some(&b"parked mod".to_vec()));
}

#[test]
fn missing_mod_is_downloaded() {
    let mut w = World::new();
    let (result, installed) = w.run_recording(false);
    assert_eq!(result, Ok(()));
    assert_eq!(installed, Some(MOD_DLL.to_string()));
    assert_eq!(
        w.logs,
        vec![
            "Downloading the latest AlphaRing release...",
            "Installed mod to /g/MCC/Binaries/Win64/WTSAPI32.dll",
            "Launching MCC...",
        ]
    );
    assert_eq!(w.fetches, 1);
    assert_eq!(w.files.get(MOD_DLL), Some(&b"new mod".to_vec()));
}

#[test]
fn install_fails_without_binary_directory() {
    let mut w = World::new();
    w.dirs.remove(MOD_DIR);
    assert_eq!(w.run(false), Err(format!("Directory does not exist: {MOD_DIR}")));
    assert_eq!(w.launched, None);
}

#[test]
fn install_fails_when_binary_directory_is_a_file() {
    let mut w = World::new();
    w.dirs.remove(MOD_DIR);
    w.files.insert(MOD_DIR.to_string(), Vec::new());
    assert_eq!(w.run(false), Err(format!("Path is not a directory: {MOD_DIR}")));
}

#[test]
fn download_failure_ends_check() {
    let mut w = World::new();
    w.files.insert(MOD_DLL.to_string(), b"old".to_vec());
    w.latest = Err("network down".to_string());
    assert_eq!(w.run(false), Err("network down".to_string()));
    assert_eq!(w.logs, vec!["Checking installed mod version..."]);
}

#[test]
fn vanilla_moves_mod_aside_without_downloading() {
    let mut w = World::new();
    w.files.insert(MOD_DLL.to_string(), b"mod".to_vec());
    w.files.insert("/g/MCC/Binaries/Win64/alpha_ring_menu.bin".to_string(), b"bin".to_vec());
    assert_eq!(w.run(true), Ok(()));
    assert_eq!(w.logs, vec!["Moving mod files aside for vanilla play...", "Launching MCC..."]);
    assert_eq!(w.fetches, 0);
    assert_eq!(w.files.get(PARKED_DLL), Some(&b"mod".to_vec()));
    assert!(w.files.contains_key("/g/alpha_ring/alpha_ring_menu.bin"));
    assert!(!w.files.contains_key(MOD_DLL));
    assert_eq!(w.launched, Some(vec!["-applaunch".to_string(), "976730".to_string()]));
}

#[test]
fn vanilla_without_mod_just_launches() {
    let mut w = World::new();
    assert_eq!(w.run(true), Ok(()));
    assert_eq!(w.logs, vec!["Launching MCC..."]);
}

#[test]
fn vanilla_rename_failure_is_reported() {
    let mut w = World::new();
    w.files.insert(MOD_DLL.to_string(), b"mod".to_vec());
    w.fail_rename = true;
    assert_eq!(w.run(true), Err("rename refused".to_string()));
    assert_eq!(w.launched, None);
}

#[test]
fn wrong_event_is_not_accepted() {
    let mut lock = app_paths_lock();
    set_app_paths(&mut lock, Platform::Linux, GAME.to_string());
    let (check, _) = check_mod(&lock, Platform::Linux, false);
    assert!(check.accepts(&ModEvent::Flag(true)));
    assert!(!check.accepts(&ModEvent::Done));
    assert!(!check.accepts(&ModEvent::Bytes(vec![1])));
}

#[test]
fn second_vanilla_run_moves_nothing() {
    let mut w = World::new();
    w.files.insert(MOD_DLL.to_string(), b"mod".to_vec());
    w.files.insert("/g/MCC/Binaries/Win64/alpha_ring_menu.bin".to_string(), b"bin".to_vec());
    w.files.insert("/g/MCC/Binaries/Win64/alpha_ring_menu.cfg".to_string(), b"cfg".to_vec());
    assert_eq!(w.run(true), Ok(()));
    let files_after_first = w.files.clone();
    w.logs.clear();
    assert_eq!(w.run(true), Ok(()));
    assert_eq!(w.files, files_after_first);
    assert_eq!(w.logs, vec!["Launching MCC..."]);
}

#[test]
fn up_to_date_check_records_no_installation() {
    let mut w = World::new();
    w.files.insert(MOD_DLL.to_string(), b"new mod".to_vec());
    let (result, installed) = w.run_recording(false);
    assert_eq!(result, Ok(()));
    assert_eq!(installed, None);
}
