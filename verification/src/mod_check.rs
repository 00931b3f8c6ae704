//! Getting the mod in place (or out of the way) and starting the game.
//!
//! With the mod, the installed `WTSAPI32.dll` is compared with the one of
//! the latest release by SHA-256 digest. When it is missing or out of date,
//! a copy parked in the backup directory is restored, or else the latest
//! release is downloaded into the game's binary directory. The extra mod
//! files are then moved from the backup directory into the binary
//! directory, and the game is launched with the mod.
//!
//! Without the mod (vanilla play), the installed `WTSAPI32.dll` and the
//! extra mod files are moved into the backup directory, and the game is
//! launched without the mod.
//!
//! The check is a state machine. Each step returns an action: a line to log,
//! if any, and an effect for the caller to carry out; the caller then hands
//! back the outcome of that effect as the next event. The first failing
//! effect ends the check with its error.

use vstd::prelude::*;
use crate::platform::{Platform, join_path, path_join};
use crate::app_paths::{AppPathsLock, get_app_paths, paths_not_detected_message, is_backup_of, backup_dir_name};
use crate::digest::{sha256, hex_lower, sha256_hex};
use crate::launch::{LaunchCommand, LaunchCommandView, launch_command, launch_spec};

verus! {

/// The game's binary directory, where the mod lives.
pub open spec fn mod_dir_of(p: Platform, game: Seq<char>) -> Seq<char> {
    join_path(p, game, "MCC/Binaries/Win64"@)
}

/// The installed mod library.
pub open spec fn mod_dll_of(p: Platform, game: Seq<char>) -> Seq<char> {
    join_path(p, mod_dir_of(p, game), "WTSAPI32.dll"@)
}

/// The mod library parked in the backup directory.
pub open spec fn parked_dll_of(p: Platform, backup: Seq<char>) -> Seq<char> {
    join_path(p, backup, "WTSAPI32.dll"@)
}

/// Number of extra mod files.
pub open spec fn extra_file_count() -> int {
    2
}

/// The `i`-th extra mod file.
pub open spec fn extra_file(i: int) -> Seq<char> {
    if i == 0 {
        "alpha_ring_menu.bin"@
    } else {
        "alpha_ring_menu.cfg"@
    }
}

/// Where a check stands: which outcome it waits for.
#[derive(Clone, Copy, Debug, PartialEq, Eq, Structural)]
pub enum ModStage {
    /// Vanilla: does the installed mod exist?
    VanillaModExists,
    /// Vanilla: creating the backup directory.
    VanillaBackupDir,
    /// Vanilla: moving the installed mod into the backup directory.
    VanillaMoveAside,
    /// Does the `i`-th extra file exist in the directory it is moved from?
    ExtraExists(usize),
    /// Creating the directory the `i`-th extra file is moved to.
    ExtraDir(usize),
    /// Moving the `i`-th extra file.
    ExtraMove(usize),
    /// Starting the game.
    Launching,
    /// With the mod: does the installed mod exist?
    ModExists,
    /// With the mod: downloading the latest release to compare digests.
    FetchForCompare,
    /// With the mod: reading the installed mod to compare digests.
    ReadInstalled,
    /// With the mod: is there a parked copy?
    BackupExists,
    /// With the mod: moving the parked copy back.
    Restore,
    /// Installing: does the binary directory exist?
    InstallDirExists,
    /// Installing: is it a directory?
    InstallIsDir,
    /// Installing: downloading the latest release.
    InstallFetch,
    /// Installing: writing the download.
    InstallWrite,
    /// The check is over.
    Finished,
}

/// What the caller is asked to do.
#[derive(Debug)]
pub enum ModEffect {
    /// Answer with `Flag`: does the path exist?
    CheckExists(String),
    /// Answer with `Flag`: is the path a directory?
    CheckIsDir(String),
    /// Answer with `Done` or `Failed`: create the directory and its parents.
    CreateDirAll(String),
    /// Answer with `Done` or `Failed`: rename the first path to the second.
    Rename(String, String),
    /// Answer with `Bytes` or `Failed`: download the mod of the latest release.
    FetchLatestAsset,
    /// Answer with `Bytes` or `Failed`: read the file.
    ReadFile(String),
    /// Answer with `Done` or `Failed`: write the bytes to the file.
    WriteFile(String, Vec<u8>),
    /// Answer with `Done` or `Failed`: start the command.
    Spawn(LaunchCommand),
    /// The check is over, with this result.
    Finish(Result<(), String>),
}

/// A line to log, if any, then an effect.
#[derive(Debug)]
pub struct ModAction {
    pub log: Option<String>,
    pub effect: ModEffect,
}

/// The outcome of an effect.
#[derive(Debug)]
pub enum ModEvent {
    Flag(bool),
    Done,
    Bytes(Vec<u8>),
    Failed(String),
}

pub enum ModEffectView {
    CheckExists(Seq<char>),
    CheckIsDir(Seq<char>),
    CreateDirAll(Seq<char>),
    Rename(Seq<char>, Seq<char>),
    FetchLatestAsset,
    ReadFile(Seq<char>),
    WriteFile(Seq<char>, Seq<u8>),
    Spawn(LaunchCommandView),
    Finish(Result<(), Seq<char>>),
}

pub struct ModActionView {
    pub log: Option<Seq<char>>,
    pub effect: ModEffectView,
}

pub enum ModEventView {
    Flag(bool),
    Done,
    Bytes(Seq<u8>),
    Failed(Seq<char>),
}

impl View for ModEffect {
    type V = ModEffectView;

    open spec fn view(&self) -> ModEffectView {
        match self {
            ModEffect::CheckExists(p) => ModEffectView::CheckExists(p@),
            ModEffect::CheckIsDir(p) => ModEffectView::CheckIsDir(p@),
            ModEffect::CreateDirAll(p) => ModEffectView::CreateDirAll(p@),
            ModEffect::Rename(a, b) => ModEffectView::Rename(a@, b@),
            ModEffect::FetchLatestAsset => ModEffectView::FetchLatestAsset,
            ModEffect::ReadFile(p) => ModEffectView::ReadFile(p@),
            ModEffect::WriteFile(p, b) => ModEffectView::WriteFile(p@, b@),
            ModEffect::Spawn(c) => ModEffectView::Spawn(c@),
            ModEffect::Finish(Ok(())) => ModEffectView::Finish(Ok(())),
            ModEffect::Finish(Err(e)) => ModEffectView::Finish(Err(e@)),
        }
    }
}

impl View for ModAction {
    type V = ModActionView;

    open spec fn view(&self) -> ModActionView {
        ModActionView {
            log: match self.log {
                Some(l) => Some(l@),
                None => None,
            },
            effect: self.effect@,
        }
    }
}

impl View for ModEvent {
    type V = ModEventView;

    open spec fn view(&self) -> ModEventView {
        match self {
            ModEvent::Flag(b) => ModEventView::Flag(*b),
            ModEvent::Done => ModEventView::Done,
            ModEvent::Bytes(b) => ModEventView::Bytes(b@),
            ModEvent::Failed(e) => ModEventView::Failed(e@),
        }
    }
}

/// The model of a check: the platform, the mode, the game and backup
/// directories, the stage, the hexadecimal digest of the latest release
/// once it has been downloaded for comparison, and the path the mod was
/// installed to once an installation has written it.
pub struct ModState {
    pub platform: Platform,
    pub vanilla: bool,
    pub game: Seq<char>,
    pub backup: Seq<char>,
    pub stage: ModStage,
    pub latest: Seq<char>,
    pub installed: Option<Seq<char>>,
}

/// Whether an event is an outcome of the effect that the stage waits for.
pub open spec fn event_fits(stage: ModStage, e: ModEventView) -> bool {
    match e {
        ModEventView::Flag(_) => match stage {
            ModStage::VanillaModExists | ModStage::ExtraExists(_) | ModStage::ModExists
            | ModStage::BackupExists | ModStage::InstallDirExists | ModStage::InstallIsDir => true,
            _ => false,
        },
        ModEventView::Done | ModEventView::Failed(_) => match stage {
            ModStage::VanillaBackupDir | ModStage::VanillaMoveAside | ModStage::ExtraDir(_)
            | ModStage::ExtraMove(_) | ModStage::Launching | ModStage::Restore
            | ModStage::InstallWrite => true,
            ModStage::FetchForCompare | ModStage::ReadInstalled | ModStage::InstallFetch => e is Failed,
            _ => false,
        },
        ModEventView::Bytes(_) => match stage {
            ModStage::FetchForCompare | ModStage::ReadInstalled | ModStage::InstallFetch => true,
            _ => false,
        },
    }
}

pub open spec fn action(log: Option<Seq<char>>, effect: ModEffectView) -> ModActionView {
    ModActionView { log, effect }
}

pub open spec fn with_stage(s: ModState, stage: ModStage) -> ModState {
    ModState { stage, ..s }
}

/// The directory the extra files move out of.
pub open spec fn extra_source(s: ModState) -> Seq<char> {
    if s.vanilla {
        mod_dir_of(s.platform, s.game)
    } else {
        s.backup
    }
}

/// The directory the extra files move into.
pub open spec fn extra_target(s: ModState) -> Seq<char> {
    if s.vanilla {
        s.backup
    } else {
        mod_dir_of(s.platform, s.game)
    }
}

/// Ending the check with an error.
pub open spec fn fail_with(s: ModState, e: Seq<char>) -> (ModState, ModActionView) {
    (with_stage(s, ModStage::Finished), action(None, ModEffectView::Finish(Err(e))))
}

/// Starting the game.
pub open spec fn launch_step(s: ModState) -> (ModState, ModActionView) {
    (
        with_stage(s, ModStage::Launching),
        action(Some("Launching MCC..."@), ModEffectView::Spawn(launch_spec(s.platform, s.vanilla))),
    )
}

/// Turning to the `i`-th extra file, or to the launch after the last one.
pub open spec fn extra_step(s: ModState, i: int, log: Option<Seq<char>>) -> (ModState, ModActionView) {
    if i < extra_file_count() {
        (
            with_stage(s, ModStage::ExtraExists(i as usize)),
            action(log, ModEffectView::CheckExists(join_path(s.platform, extra_source(s), extra_file(i)))),
        )
    } else {
        launch_step(s)
    }
}

/// Asking whether a parked copy of the mod exists.
pub open spec fn backup_check_step(s: ModState) -> (ModState, ModActionView) {
    (
        with_stage(s, ModStage::BackupExists),
        action(None, ModEffectView::CheckExists(parked_dll_of(s.platform, s.backup))),
    )
}

/// The state after `s` receives event `e`, and the next action.
pub open spec fn mod_step(s: ModState, e: ModEventView) -> (ModState, ModActionView) {
    let p = s.platform;
    let mod_dir = mod_dir_of(p, s.game);
    let mod_dll = mod_dll_of(p, s.game);
    let parked = parked_dll_of(p, s.backup);
    match e {
        ModEventView::Failed(err) => fail_with(s, err),
        ModEventView::Flag(b) => match s.stage {
            ModStage::VanillaModExists => if b {
                (
                    with_stage(s, ModStage::VanillaBackupDir),
                    action(Some("Moving mod files aside for vanilla play..."@), ModEffectView::CreateDirAll(s.backup)),
                )
            } else {
                extra_step(s, 0, None)
            },
            ModStage::ExtraExists(i) => if b {
                (with_stage(s, ModStage::ExtraDir(i)), action(None, ModEffectView::CreateDirAll(extra_target(s))))
            } else {
                extra_step(s, i + 1, None)
            },
            ModStage::ModExists => if b {
                (
                    with_stage(s, ModStage::FetchForCompare),
                    action(Some("Checking installed mod version..."@), ModEffectView::FetchLatestAsset),
                )
            } else {
                backup_check_step(s)
            },
            ModStage::BackupExists => if b {
                (
                    with_stage(s, ModStage::Restore),
                    action(Some("Restoring cached mod files..."@), ModEffectView::Rename(parked, mod_dll)),
                )
            } else {
                (with_stage(s, ModStage::InstallDirExists), action(None, ModEffectView::CheckExists(mod_dir)))
            },
            ModStage::InstallDirExists => if b {
                (with_stage(s, ModStage::InstallIsDir), action(None, ModEffectView::CheckIsDir(mod_dir)))
            } else {
                fail_with(s, "Directory does not exist: "@ + mod_dir)
            },
            ModStage::InstallIsDir => if b {
                (
                    with_stage(s, ModStage::InstallFetch),
                    action(Some("Downloading the latest AlphaRing release..."@), ModEffectView::FetchLatestAsset),
                )
            } else {
                fail_with(s, "Path is not a directory: "@ + mod_dir)
            },
            _ => (s, action(None, ModEffectView::Finish(Err(Seq::empty())))),
        },
        ModEventView::Done => match s.stage {
            ModStage::VanillaBackupDir => (
                with_stage(s, ModStage::VanillaMoveAside),
                action(None, ModEffectView::Rename(mod_dll, parked)),
            ),
            ModStage::VanillaMoveAside => extra_step(s, 0, None),
            ModStage::ExtraDir(i) => (
                with_stage(s, ModStage::ExtraMove(i)),
                action(
                    None,
                    ModEffectView::Rename(
                        join_path(p, extra_source(s), extra_file(i as int)),
                        join_path(p, extra_target(s), extra_file(i as int)),
                    ),
                ),
            ),
            ModStage::ExtraMove(i) => extra_step(s, i + 1, None),
            ModStage::Launching => (with_stage(s, ModStage::Finished), action(None, ModEffectView::Finish(Ok(())))),
            ModStage::Restore => extra_step(s, 0, None),
            ModStage::InstallWrite => extra_step(
                ModState { installed: Some(join_path(p, mod_dir, "WTSAPI32.dll"@)), ..s },
                0,
                Some("Installed mod to "@ + join_path(p, mod_dir, "WTSAPI32.dll"@)),
            ),
            _ => (s, action(None, ModEffectView::Finish(Err(Seq::empty())))),
        },
        ModEventView::Bytes(bytes) => match s.stage {
            ModStage::FetchForCompare => (
                ModState { stage: ModStage::ReadInstalled, latest: hex_lower(sha256(bytes)), ..s },
                action(None, ModEffectView::ReadFile(mod_dll)),
            ),
            ModStage::ReadInstalled => if hex_lower(sha256(bytes)) == s.latest {
                extra_step(s, 0, Some("Mod is up to date."@))
            } else {
                backup_check_step(s)
            },
            ModStage::InstallFetch => (
                with_stage(s, ModStage::InstallWrite),
                action(None, ModEffectView::WriteFile(join_path(p, mod_dir, "WTSAPI32.dll"@), bytes)),
            ),
            _ => (s, action(None, ModEffectView::Finish(Err(Seq::empty())))),
        },
    }
}

/// How a check begins: with the detected paths it asks whether the mod is
/// installed; without them it ends at once with the not-detected message.
pub open spec fn mod_start(p: Platform, vanilla: bool, slot: Option<(Seq<char>, Seq<char>)>) -> (ModState, ModActionView) {
    match slot {
        Some((g, b)) => (
            ModState {
                platform: p,
                vanilla,
                game: g,
                backup: b,
                stage: if vanilla { ModStage::VanillaModExists } else { ModStage::ModExists },
                latest: Seq::empty(),
                installed: None,
            },
            action(None, ModEffectView::CheckExists(mod_dll_of(p, g))),
        ),
        None => (
            ModState {
                platform: p,
                vanilla,
                game: Seq::empty(),
                backup: Seq::empty(),
                stage: ModStage::Finished,
                latest: Seq::empty(),
                installed: None,
            },
            action(None, ModEffectView::Finish(Err(paths_not_detected_message()))),
        ),
    }
}

/// A check in progress.
pub struct ModCheck {
    platform: Platform,
    vanilla: bool,
    game_path: String,
    backup_path: String,
    mod_dir: String,
    mod_dll: String,
    parked_dll: String,
    stage: ModStage,
    latest: String,
    installed: Option<String>,
}

impl View for ModCheck {
    type V = ModState;

    closed spec fn view(&self) -> ModState {
        ModState {
            platform: self.platform,
            vanilla: self.vanilla,
            game: self.game_path@,
            backup: self.backup_path@,
            stage: self.stage,
            latest: self.latest@,
            installed: match self.installed {
                Some(d) => Some(d@),
                None => None,
            },
        }
    }
}

pub open spec fn stage_index_ok(stage: ModStage) -> bool {
    match stage {
        ModStage::ExtraExists(i) | ModStage::ExtraDir(i) | ModStage::ExtraMove(i) => i < extra_file_count(),
        _ => true,
    }
}

impl ModCheck {
    #[verifier::type_invariant]
    closed spec fn inv(self) -> bool {
        &&& self.mod_dir@ == mod_dir_of(self.platform, self.game_path@)
        &&& self.mod_dll@ == mod_dll_of(self.platform, self.game_path@)
        &&& self.parked_dll@ == parked_dll_of(self.platform, self.backup_path@)
        &&& stage_index_ok(self.stage)
    }

    /// Whether `event` is an outcome of the effect this check waits for.
    pub fn accepts(&self, event: &ModEvent) -> (b: bool)
        ensures
            b == event_fits(self@.stage, event@),
    {
        match event {
            ModEvent::Flag(_) => matches!(self.stage,
                ModStage::VanillaModExists | ModStage::ExtraExists(_) | ModStage::ModExists
                | ModStage::BackupExists | ModStage::InstallDirExists | ModStage::InstallIsDir),
            ModEvent::Done => matches!(self.stage,
                ModStage::VanillaBackupDir | ModStage::VanillaMoveAside | ModStage::ExtraDir(_)
                | ModStage::ExtraMove(_) | ModStage::Launching | ModStage::Restore | ModStage::InstallWrite),
            ModEvent::Failed(_) => matches!(self.stage,
                ModStage::VanillaBackupDir | ModStage::VanillaMoveAside | ModStage::ExtraDir(_)
                | ModStage::ExtraMove(_) | ModStage::Launching | ModStage::Restore | ModStage::InstallWrite
                | ModStage::FetchForCompare | ModStage::ReadInstalled | ModStage::InstallFetch),
            ModEvent::Bytes(_) => matches!(self.stage,
                ModStage::FetchForCompare | ModStage::ReadInstalled | ModStage::InstallFetch),
        }
    }

    /// The path the mod was installed to, once an installation has written it.
    pub fn installed_path(&self) -> (res: Option<String>)
        ensures
            match res {
                Some(d) => self@.installed == Some(d@),
                None => self@.installed == None::<Seq<char>>,
            },
    {
        match &self.installed {
            Some(d) => Some(d.clone()),
            None => None,
        }
    }

    /// Whether the check is over.
    pub fn is_finished(&self) -> (b: bool)
        ensures
            b == (self@.stage == ModStage::Finished),
    {
        matches!(self.stage, ModStage::Finished)
    }
}

fn new_action(log: Option<String>, effect: ModEffect) -> (a: ModAction)
    ensures
        a.log == log,
        a.effect == effect,
{
    ModAction { log, effect }
}

fn extra_name(i: usize) -> (name: &'static str)
    ensures
        name@ == extra_file(i as int),
{
    if i == 0 {
        "alpha_ring_menu.bin"
    } else {
        "alpha_ring_menu.cfg"
    }
}

/// Starts checking the mod in the given mode, with the paths recorded in
/// `lock`; returns the check and its first action.
pub fn check_mod(lock: &AppPathsLock, p: Platform, vanilla: bool) -> (res: (ModCheck, ModAction))
    ensures
        (res.0@, res.1@) == mod_start(p, vanilla, lock@),
        res.0@.stage != ModStage::Finished ==> is_backup_of(res.0@.backup, res.0@.game),
{
    match get_app_paths(lock) {
        Ok((game_path, backup_path)) => {
            let mod_dir = path_join(p, game_path.as_str(), "MCC/Binaries/Win64");
            let mod_dll = path_join(p, mod_dir.as_str(), "WTSAPI32.dll");
            let parked_dll = path_join(p, backup_path.as_str(), "WTSAPI32.dll");
            let stage = if vanilla { ModStage::VanillaModExists } else { ModStage::ModExists };
            let first = new_action(None, ModEffect::CheckExists(mod_dll.clone()));
            let check = ModCheck {
                platform: p,
                vanilla,
                game_path,
                backup_path,
                mod_dir,
                mod_dll,
                parked_dll,
                stage,
                latest: String::new(),
                installed: None,
            };
            (check, first)
        },
        Err(e) => {
            let empty = String::new();
            let mod_dir = path_join(p, empty.as_str(), "MCC/Binaries/Win64");
            let mod_dll = path_join(p, mod_dir.as_str(), "WTSAPI32.dll");
            let parked_dll = path_join(p, empty.as_str(), "WTSAPI32.dll");
            let check = ModCheck {
                platform: p,
                vanilla,
                game_path: String::new(),
                backup_path: String::new(),
                mod_dir,
                mod_dll,
                parked_dll,
                stage: ModStage::Finished,
                latest: String::new(),
                installed: None,
            };
            (check, new_action(None, ModEffect::Finish(Err(e))))
        },
    }
}

fn launch_action(c: ModCheck) -> (res: (ModCheck, ModAction))
    ensures
        (res.0@, res.1@) == launch_step(c@),
{
    proof {
        use_type_invariant(&c);
    }
    let mut c = c;
    c.stage = ModStage::Launching;
    let cmd = launch_command(c.platform, c.vanilla);
    (c, new_action(Some(String::from_str("Launching MCC...")), ModEffect::Spawn(cmd)))
}

fn extra_action(c: ModCheck, i: usize, log: Option<String>) -> (res: (ModCheck, ModAction))
    requires
        i <= extra_file_count(),
    ensures
        (res.0@, res.1@) == extra_step(c@, i as int, match log {
            Some(l) => Some(l@),
            None => None,
        }),
{
    proof {
        use_type_invariant(&c);
    }
    if i < 2 {
        let path = if c.vanilla {
            path_join(c.platform, c.mod_dir.as_str(), extra_name(i))
        } else {
            path_join(c.platform, c.backup_path.as_str(), extra_name(i))
        };
        let mut c = c;
        c.stage = ModStage::ExtraExists(i);
        (c, new_action(log, ModEffect::CheckExists(path)))
    } else {
        launch_action(c)
    }
}

fn finish_with(c: ModCheck, e: String) -> (res: (ModCheck, ModAction))
    ensures
        (res.0@, res.1@) == fail_with(c@, e@),
{
    proof {
        use_type_invariant(&c);
    }
    let mut c = c;
    c.stage = ModStage::Finished;
    (c, new_action(None, ModEffect::Finish(Err(e))))
}

/// Hands the outcome of the last effect to the check; returns the check and
/// its next action.
pub fn mod_check_step(check: ModCheck, event: ModEvent) -> (res: (ModCheck, ModAction))
    requires
        event_fits(check@.stage, event@),
    ensures
        (res.0@, res.1@) == mod_step(check@, event@),
{
    proof {
        use_type_invariant(&check);
    }
    let mut c = check;
    match event {
        ModEvent::Failed(err) => finish_with(c, err),
        ModEvent::Flag(b) => match c.stage {
            ModStage::VanillaModExists => if b {
                c.stage = ModStage::VanillaBackupDir;
                let dir = c.backup_path.clone();
                (c, new_action(Some(String::from_str("Moving mod files aside for vanilla play...")), ModEffect::CreateDirAll(dir)))
            } else {
                extra_action(c, 0, None)
            },
            ModStage::ExtraExists(i) => if b {
                c.stage = ModStage::ExtraDir(i);
                let dir = if c.vanilla { c.backup_path.clone() } else { c.mod_dir.clone() };
                (c, new_action(None, ModEffect::CreateDirAll(dir)))
            } else {
                extra_action(c, i + 1, None)
            },
            ModStage::ModExists => if b {
                c.stage = ModStage::FetchForCompare;
                (c, new_action(Some(String::from_str("Checking installed mod version...")), ModEffect::FetchLatestAsset))
            } else {
                c.stage = ModStage::BackupExists;
                let parked = c.parked_dll.clone();
                (c, new_action(None, ModEffect::CheckExists(parked)))
            },
            ModStage::BackupExists => if b {
                c.stage = ModStage::Restore;
                let from = c.parked_dll.clone();
                let to = c.mod_dll.clone();
                (c, new_action(Some(String::from_str("Restoring cached mod files...")), ModEffect::Rename(from, to)))
            } else {
                c.stage = ModStage::InstallDirExists;
                let dir = c.mod_dir.clone();
                (c, new_action(None, ModEffect::CheckExists(dir)))
            },
            ModStage::InstallDirExists => if b {
                c.stage = ModStage::InstallIsDir;
                let dir = c.mod_dir.clone();
                (c, new_action(None, ModEffect::CheckIsDir(dir)))
            } else {
                let msg = String::from_str("Directory does not exist: ").concat(c.mod_dir.as_str());
                finish_with(c, msg)
            },
            _ => {
                // InstallIsDir, the only other stage that waits for a flag.
                if b {
                    c.stage = ModStage::InstallFetch;
                    (c, new_action(Some(String::from_str("Downloading the latest AlphaRing release...")), ModEffect::FetchLatestAsset))
                } else {
                    let msg = String::from_str("Path is not a directory: ").concat(c.mod_dir.as_str());
                    finish_with(c, msg)
                }
            },
        },
        ModEvent::Done => match c.stage {
            ModStage::VanillaBackupDir => {
                c.stage = ModStage::VanillaMoveAside;
                let from = c.mod_dll.clone();
                let to = c.parked_dll.clone();
                (c, new_action(None, ModEffect::Rename(from, to)))
            },
            ModStage::VanillaMoveAside => extra_action(c, 0, None),
            ModStage::ExtraDir(i) => {
                let (from, to) = if c.vanilla {
                    (path_join(c.platform, c.mod_dir.as_str(), extra_name(i)),
                     path_join(c.platform, c.backup_path.as_str(), extra_name(i)))
                } else {
                    (path_join(c.platform, c.backup_path.as_str(), extra_name(i)),
                     path_join(c.platform, c.mod_dir.as_str(), extra_name(i)))
                };
                c.stage = ModStage::ExtraMove(i);
                (c, new_action(None, ModEffect::Rename(from, to)))
            },
            ModStage::ExtraMove(i) => extra_action(c, i + 1, None),
            ModStage::Launching => {
                c.stage = ModStage::Finished;
                (c, new_action(None, ModEffect::Finish(Ok(()))))
            },
            ModStage::Restore => extra_action(c, 0, None),
            _ => {
                // InstallWrite, the only other stage that waits for `Done`.
                let dest = path_join(c.platform, c.mod_dir.as_str(), "WTSAPI32.dll");
                let msg = String::from_str("Installed mod to ").concat(dest.as_str());
                c.installed = Some(dest);
                extra_action(c, 0, Some(msg))
            },
        },
        ModEvent::Bytes(bytes) => match c.stage {
            ModStage::FetchForCompare => {
                c.latest = sha256_hex(bytes.as_slice());
                c.stage = ModStage::ReadInstalled;
                let path = c.mod_dll.clone();
                (c, new_action(None, ModEffect::ReadFile(path)))
            },
            ModStage::ReadInstalled => {
                let installed = sha256_hex(bytes.as_slice());
                if installed == c.latest {
                    extra_action(c, 0, Some(String::from_str("Mod is up to date.")))
                } else {
                    c.stage = ModStage::BackupExists;
                    let parked = c.parked_dll.clone();
                    (c, new_action(None, ModEffect::CheckExists(parked)))
                }
            },
            _ => {
                // InstallFetch, the only other stage that waits for bytes.
                c.stage = ModStage::InstallWrite;
                let dest = path_join(c.platform, c.mod_dir.as_str(), "WTSAPI32.dll");
                (c, new_action(None, ModEffect::WriteFile(dest, bytes)))
            },
        },
    }
}

/// The stages a check in vanilla mode passes through.
pub open spec fn is_vanilla_stage(stage: ModStage) -> bool {
    match stage {
        ModStage::VanillaModExists | ModStage::VanillaBackupDir | ModStage::VanillaMoveAside
        | ModStage::ExtraExists(_) | ModStage::ExtraDir(_) | ModStage::ExtraMove(_)
        | ModStage::Launching | ModStage::Finished => true,
        _ => false,
    }
}

/// Whether an effect touches the mod's contents or the network.
pub open spec fn downloads_or_touches_contents(e: ModEffectView) -> bool {
    match e {
        ModEffectView::FetchLatestAsset | ModEffectView::ReadFile(_) | ModEffectView::WriteFile(_, _) => true,
        _ => false,
    }
}

/// A check in vanilla mode starts in a vanilla stage, stays in vanilla
/// stages, and never downloads, reads or writes the mod: it only moves files
/// aside and launches.
pub proof fn law_vanilla_never_downloads(s: ModState, e: ModEventView, p: Platform, slot: Option<(Seq<char>, Seq<char>)>)
    requires
        s.vanilla,
        is_vanilla_stage(s.stage),
        stage_index_ok(s.stage),
        event_fits(s.stage, e),
    ensures
        is_vanilla_stage(mod_start(p, true, slot).0.stage),
        mod_step(s, e).0.vanilla,
        is_vanilla_stage(mod_step(s, e).0.stage),
        !downloads_or_touches_contents(mod_step(s, e).1.effect),
{
}

/// A failed effect ends the check at once, with that effect's error and
/// nothing logged.
pub proof fn law_failure_ends_check(s: ModState, err: Seq<char>)
    requires
        event_fits(s.stage, ModEventView::Failed(err)),
    ensures
        mod_step(s, ModEventView::Failed(err)).0.stage == ModStage::Finished,
        mod_step(s, ModEventView::Failed(err)).1 == action(None, ModEffectView::Finish(Err(err))),
{
}

/// A check succeeds only once the game has been launched, and every launch
/// logs `Launching MCC...` and starts Steam in the check's mode.
pub proof fn law_success_follows_launch(s: ModState, e: ModEventView)
    requires
        event_fits(s.stage, e),
        stage_index_ok(s.stage),
    ensures
        mod_step(s, e).1.effect == ModEffectView::Finish(Ok(())) ==> s.stage == ModStage::Launching && e == ModEventView::Done,
        mod_step(s, e).1.effect is Spawn ==> {
            &&& mod_step(s, e).0.stage == ModStage::Launching
            &&& mod_step(s, e).1.log == Some("Launching MCC..."@)
            &&& mod_step(s, e).1.effect == ModEffectView::Spawn(launch_spec(s.platform, s.vanilla))
        },
{
}

/// Once the latest release has been downloaded for comparison, the installed
/// mod is kept as it is exactly when its SHA-256 digest equals the
/// release's: then the check moves on to the extra files; otherwise it looks
/// for a parked copy to restore.
pub proof fn law_up_to_date_mod_is_kept(s: ModState, latest: Seq<u8>, installed: Seq<u8>)
    requires
        s.stage == ModStage::FetchForCompare,
    ensures
        ({
            let r = mod_step(s, ModEventView::Bytes(latest)).0;
            let t = mod_step(r, ModEventView::Bytes(installed));
            &&& r.stage == ModStage::ReadInstalled
            &&& mod_step(s, ModEventView::Bytes(latest)).1.effect == ModEffectView::ReadFile(mod_dll_of(s.platform, s.game))
            &&& sha256(installed) == sha256(latest) ==> {
                &&& t.0.stage == ModStage::ExtraExists(0)
                &&& t.1.log == Some("Mod is up to date."@)
            }
            &&& sha256(installed) != sha256(latest) ==> {
                &&& t.0.stage == ModStage::BackupExists
                &&& t.1.effect == ModEffectView::CheckExists(parked_dll_of(s.platform, s.backup))
            }
        }),
{
    if hex_lower(sha256(installed)) == hex_lower(sha256(latest)) {
        crate::digest::law_hex_injective(sha256(installed), sha256(latest));
    }
}

/// How far a stage is from the end of the check.
pub open spec fn stage_rank(stage: ModStage) -> int {
    match stage {
        ModStage::VanillaModExists => 16,
        ModStage::VanillaBackupDir => 15,
        ModStage::VanillaMoveAside => 14,
        ModStage::ModExists => 16,
        ModStage::FetchForCompare => 15,
        ModStage::ReadInstalled => 14,
        ModStage::BackupExists => 13,
        ModStage::Restore => 12,
        ModStage::InstallDirExists => 11,
        ModStage::InstallIsDir => 10,
        ModStage::InstallFetch => 9,
        ModStage::InstallWrite => 8,
        ModStage::ExtraExists(i) => 7 - 3 * i,
        ModStage::ExtraDir(i) => 6 - 3 * i,
        ModStage::ExtraMove(i) => 5 - 3 * i,
        ModStage::Launching => 1,
        ModStage::Finished => 0,
    }
}

/// Every answered step brings the check closer to its end, so a check ends
/// after at most sixteen answered effects; the mode, the platform and the
/// directories never change along the way.
pub proof fn law_check_comes_to_an_end(s: ModState, e: ModEventView)
    requires
        event_fits(s.stage, e),
        stage_index_ok(s.stage),
    ensures
        0 <= stage_rank(mod_step(s, e).0.stage) < stage_rank(s.stage) <= 16,
        stage_index_ok(mod_step(s, e).0.stage),
        mod_step(s, e).0.vanilla == s.vanilla,
        mod_step(s, e).0.platform == s.platform,
        mod_step(s, e).0.game == s.game,
        mod_step(s, e).0.backup == s.backup,
{
}

/// Where an installation writes the mod.
pub open spec fn install_destination(s: ModState) -> Seq<char> {
    join_path(s.platform, mod_dir_of(s.platform, s.game), "WTSAPI32.dll"@)
}

/// Once the binary directory is known to be a directory, an installation
/// logs the download, writes exactly the downloaded bytes into
/// `WTSAPI32.dll` there, logs where it installed the mod and records that
/// path.
pub proof fn law_install_writes_download(s: ModState, bytes: Seq<u8>)
    requires
        s.stage == ModStage::InstallIsDir,
    ensures
        ({
            let (s1, a1) = mod_step(s, ModEventView::Flag(true));
            let (s2, a2) = mod_step(s1, ModEventView::Bytes(bytes));
            let (s3, a3) = mod_step(s2, ModEventView::Done);
            &&& a1 == action(Some("Downloading the latest AlphaRing release..."@), ModEffectView::FetchLatestAsset)
            &&& a2 == action(None, ModEffectView::WriteFile(install_destination(s), bytes))
            &&& a3.log == Some("Installed mod to "@ + install_destination(s))
            &&& s3.installed == Some(install_destination(s))
            &&& s3.stage == ModStage::ExtraExists(0)
        }),
{
}

/// What exists on disk, files and directories alike, as the extra-file
/// moves see it.
pub open spec fn disk_reply(disk: Set<Seq<char>>, effect: ModEffectView) -> (ModEventView, Set<Seq<char>>) {
    match effect {
        ModEffectView::CheckExists(path) => (ModEventView::Flag(disk.contains(path)), disk),
        ModEffectView::CreateDirAll(path) => (ModEventView::Done, disk.insert(path)),
        ModEffectView::Rename(from, to) => if disk.contains(from) {
            (ModEventView::Done, disk.remove(from).insert(to))
        } else {
            (ModEventView::Failed("not found"@), disk)
        },
        _ => (ModEventView::Done, disk),
    }
}

/// Up to `n` steps of a check whose effects are carried out on `disk`,
/// stopping at the launch or the end.
pub open spec fn run_on_disk(s: ModState, a: ModActionView, disk: Set<Seq<char>>, n: nat) -> (ModState, ModActionView, Set<Seq<char>>)
    decreases n,
{
    if n == 0 || s.stage == ModStage::Launching || s.stage == ModStage::Finished {
        (s, a, disk)
    } else {
        let (e, d2) = disk_reply(disk, a.effect);
        let (s2, a2) = mod_step(s, e);
        run_on_disk(s2, a2, d2, (n - 1) as nat)
    }
}

/// Moving one extra file: when it exists in the source directory, the target
/// directory is created and the file renamed into it.
pub open spec fn move_extra_file(disk: Set<Seq<char>>, p: Platform, from: Seq<char>, to: Seq<char>, i: int) -> Set<Seq<char>> {
    let src = join_path(p, from, extra_file(i));
    if disk.contains(src) {
        disk.insert(to).remove(src).insert(join_path(p, to, extra_file(i)))
    } else {
        disk
    }
}

/// Moving both extra files.
pub open spec fn move_extra_files(disk: Set<Seq<char>>, p: Platform, from: Seq<char>, to: Seq<char>) -> Set<Seq<char>> {
    move_extra_file(move_extra_file(disk, p, from, to, 0), p, from, to, 1)
}

/// The source paths of the extra files are neither the target directory nor
/// a target path.
pub open spec fn extra_paths_apart(p: Platform, from: Seq<char>, to: Seq<char>) -> bool {
    forall|i: int, j: int| 0 <= i < extra_file_count() && 0 <= j < extra_file_count() ==> {
        &&& join_path(p, from, extra_file(i)) != to
        &&& join_path(p, from, extra_file(i)) != join_path(p, to, extra_file(j))
    }
}

proof fn lemma_extra_files_distinct(p: Platform, dir: Seq<char>)
    ensures
        join_path(p, dir, extra_file(0)) != join_path(p, dir, extra_file(1)),
{
    let a = join_path(p, dir, extra_file(0));
    let b = join_path(p, dir, extra_file(1));
    crate::platform::law_join_keeps_parts(p, dir, extra_file(0));
    crate::platform::law_join_keeps_parts(p, dir, extra_file(1));
    reveal_strlit("alpha_ring_menu.bin");
    reveal_strlit("alpha_ring_menu.cfg");
    if a == b {
        assert(a.last() == extra_file(0).last());
        assert(b.last() == extra_file(1).last());
    }
}

proof fn lemma_move_one_file(s: ModState, log: Option<Seq<char>>, disk: Set<Seq<char>>, i: int, n: nat)
    requires
        0 <= i < extra_file_count(),
        n >= 3,
        extra_paths_apart(s.platform, extra_source(s), extra_target(s)),
    ensures
        ({
            let (si, ai) = extra_step(s, i, log);
            let (sn, an) = extra_step(s, i + 1, None);
            let moved = move_extra_file(disk, s.platform, extra_source(s), extra_target(s), i);
            let used: nat = if moved == disk && !disk.contains(join_path(s.platform, extra_source(s), extra_file(i))) { 1 } else { 3 };
            run_on_disk(si, ai, disk, n) == run_on_disk(sn, an, moved, (n - used) as nat)
        }),
{
    let p = s.platform;
    let x = join_path(p, extra_source(s), extra_file(i));
    let (si, ai) = extra_step(s, i, log);
    assert(si.stage == ModStage::ExtraExists(i as usize));
    let (e1, d1) = disk_reply(disk, ai.effect);
    let (s1, a1) = mod_step(si, e1);
    assert(run_on_disk(si, ai, disk, n) == run_on_disk(s1, a1, d1, (n - 1) as nat));
    if disk.contains(x) {
        assert(s1.stage == ModStage::ExtraDir(i as usize));
        let (e2, d2) = disk_reply(d1, a1.effect);
        let (s2, a2) = mod_step(s1, e2);
        assert(run_on_disk(s1, a1, d1, (n - 1) as nat) == run_on_disk(s2, a2, d2, (n - 2) as nat));
        assert(d2 == disk.insert(extra_target(s)));
        assert(x != extra_target(s));
        assert(d2.contains(x));
        assert(s2.stage == ModStage::ExtraMove(i as usize));
        let (e3, d3) = disk_reply(d2, a2.effect);
        let (s3, a3) = mod_step(s2, e3);
        assert(run_on_disk(s2, a2, d2, (n - 2) as nat) == run_on_disk(s3, a3, d3, (n - 3) as nat));
        assert(e3 == ModEventView::Done);
        assert(!move_extra_file(disk, p, extra_source(s), extra_target(s), i).contains(x));
    }
}

/// The extra-file moves, between directories whose source file paths are
/// neither the target directory nor a target path, move each existing file
/// and launch; repeated at once they launch and change nothing.
#[verifier::rlimit(30)]
proof fn lemma_extra_moves_idempotent_apart(s: ModState, disk: Set<Seq<char>>, log: Option<Seq<char>>)
    requires
        extra_paths_apart(s.platform, extra_source(s), extra_target(s)),
    ensures
        ({
            let (s0, a0) = extra_step(s, 0, log);
            let first = run_on_disk(s0, a0, disk, 6);
            let second = run_on_disk(s0, a0, first.2, 6);
            &&& first.0.stage == ModStage::Launching
            &&& first.2 == move_extra_files(disk, s.platform, extra_source(s), extra_target(s))
            &&& second.0.stage == ModStage::Launching
            &&& second.2 == first.2
        }),
{
    let p = s.platform;
    let from = extra_source(s);
    let to = extra_target(s);
    let x0 = join_path(p, from, extra_file(0));
    let x1 = join_path(p, from, extra_file(1));
    lemma_extra_files_distinct(p, from);
    let (s0, a0) = extra_step(s, 0, log);
    let (s1, a1) = extra_step(s, 1, None);
    let (sl, al) = extra_step(s, 2, None);
    assert(sl.stage == ModStage::Launching);
    let d1 = move_extra_file(disk, p, from, to, 0);
    let d2 = move_extra_file(d1, p, from, to, 1);
    assert(!d1.contains(x0));
    assert(!d2.contains(x0));
    assert(!d2.contains(x1));
    lemma_move_one_file(s, log, disk, 0, 6);
    let k0: nat = if d1 == disk && !disk.contains(x0) { 1 } else { 3 };
    lemma_move_one_file(s, None, d1, 1, (6 - k0) as nat);
    let k1: nat = if d2 == d1 && !d1.contains(x1) { 1 } else { 3 };
    assert(run_on_disk(sl, al, d2, (6 - k0 - k1) as nat) == (sl, al, d2));
    assert(move_extra_file(d2, p, from, to, 0) == d2);
    assert(move_extra_file(d2, p, from, to, 1) == d2);
    lemma_move_one_file(s, log, d2, 0, 6);
    lemma_move_one_file(s, None, d2, 1, 5);
    assert(run_on_disk(sl, al, d2, 4) == (sl, al, d2));
}

/// The game's binary directory and a backup directory inside the same game
/// directory are far enough apart for the extra-file moves in either
/// direction: no source file path is the target directory or a target path
/// (their lengths differ).
pub proof fn law_check_directories_apart(p: Platform, q: Platform, game: Seq<char>)
    ensures
        extra_paths_apart(p, mod_dir_of(p, game), join_path(q, game, backup_dir_name())),
        extra_paths_apart(p, join_path(q, game, backup_dir_name()), mod_dir_of(p, game)),
{
    let m = mod_dir_of(p, game);
    let b = join_path(q, game, backup_dir_name());
    reveal_strlit("MCC/Binaries/Win64");
    reveal_strlit("alpha_ring");
    reveal_strlit("alpha_ring_menu.bin");
    reveal_strlit("alpha_ring_menu.cfg");
    crate::platform::law_join_keeps_parts(p, game, "MCC/Binaries/Win64"@);
    crate::platform::law_join_keeps_parts(q, game, backup_dir_name());
    assert(extra_file(0).len() == 19);
    assert(extra_file(1).len() == 19);
    assert forall|i: int| 0 <= i < extra_file_count() implies {
        &&& #[trigger] join_path(p, m, extra_file(i)).len() >= m.len() + 19
        &&& join_path(p, m, extra_file(i)).len() <= m.len() + 20
        &&& join_path(p, b, extra_file(i)).len() >= b.len() + 19
        &&& join_path(p, b, extra_file(i)).len() <= b.len() + 20
    } by {
        crate::platform::law_join_keeps_parts(p, m, extra_file(i));
        crate::platform::law_join_keeps_parts(p, b, extra_file(i));
    }
}

/// In a check, whose backup directory is the `alpha_ring` directory of its
/// game directory, carrying out the extra-file moves on a disk moves each
/// extra file that exists from the source directory into the target
/// directory and then launches the game; doing it again right afterwards
/// launches the game and changes nothing on disk. This holds in both modes.
pub proof fn law_extra_moves_are_idempotent(s: ModState, disk: Set<Seq<char>>, log: Option<Seq<char>>)
    requires
        is_backup_of(s.backup, s.game),
    ensures
        ({
            let (s0, a0) = extra_step(s, 0, log);
            let first = run_on_disk(s0, a0, disk, 6);
            let second = run_on_disk(s0, a0, first.2, 6);
            &&& first.0.stage == ModStage::Launching
            &&& first.2 == move_extra_files(disk, s.platform, extra_source(s), extra_target(s))
            &&& second.0.stage == ModStage::Launching
            &&& second.2 == first.2
        }),
{
    let q = choose|q: Platform| s.backup == join_path(q, s.game, backup_dir_name());
    law_check_directories_apart(s.platform, q, s.game);
    lemma_extra_moves_idempotent_apart(s, disk, log);
}

/// With the mod, however the library step ends (the installed mod kept,
/// the parked copy restored, or the release installed), the check goes on to
/// bring the parked menu files back: it next asks whether
/// `alpha_ring_menu.bin` exists in the backup directory.
pub proof fn law_modded_check_brings_menu_files_back(s: ModState, installed: Seq<u8>)
    requires
        !s.vanilla,
    ensures
        ({
            let look = ModEffectView::CheckExists(join_path(s.platform, s.backup, "alpha_ring_menu.bin"@));
            &&& s.stage == ModStage::Restore ==> {
                &&& mod_step(s, ModEventView::Done).0.stage == ModStage::ExtraExists(0)
                &&& mod_step(s, ModEventView::Done).1 == action(None, look)
            }
            &&& (s.stage == ModStage::ReadInstalled && hex_lower(sha256(installed)) == s.latest) ==> {
                &&& mod_step(s, ModEventView::Bytes(installed)).0.stage == ModStage::ExtraExists(0)
                &&& mod_step(s, ModEventView::Bytes(installed)).1 == action(Some("Mod is up to date."@), look)
            }
            &&& s.stage == ModStage::InstallWrite ==> {
                &&& mod_step(s, ModEventView::Done).0.stage == ModStage::ExtraExists(0)
                &&& mod_step(s, ModEventView::Done).1.effect == look
            }
        }),
{
}

/// In vanilla mode the menu files are moved aside whether or not the mod
/// library was there: after the library has been moved aside, and when
/// there was none, the check next asks whether `alpha_ring_menu.bin` exists
/// in the game's binary directory.
pub proof fn law_vanilla_check_moves_menu_files_aside(s: ModState)
    requires
        s.vanilla,
    ensures
        ({
            let bin_dir = join_path(s.platform, s.game, "MCC/Binaries/Win64"@);
            let look = action(None, ModEffectView::CheckExists(join_path(s.platform, bin_dir, "alpha_ring_menu.bin"@)));
            &&& s.stage == ModStage::VanillaModExists ==> {
                &&& mod_step(s, ModEventView::Flag(false)).0.stage == ModStage::ExtraExists(0)
                &&& mod_step(s, ModEventView::Flag(false)).1 == look
            }
            &&& s.stage == ModStage::VanillaMoveAside ==> {
                &&& mod_step(s, ModEventView::Done).0.stage == ModStage::ExtraExists(0)
                &&& mod_step(s, ModEventView::Done).1 == look
            }
        }),
{
}

/// The menu files are handled one after the other, `.bin` then `.cfg`: a
/// file that exists gets its target directory created and is then renamed
/// into it, under the same name; a missing file is passed over.
pub proof fn law_menu_files_in_turn(s: ModState, i: usize)
    requires
        i < 2,
    ensures
        ({
            let from = extra_source(s);
            let to = extra_target(s);
            let name = if i == 0 { "alpha_ring_menu.bin"@ } else { "alpha_ring_menu.cfg"@ };
            let next_cfg = action(None, ModEffectView::CheckExists(join_path(s.platform, from, "alpha_ring_menu.cfg"@)));
            &&& s.vanilla ==> from == join_path(s.platform, s.game, "MCC/Binaries/Win64"@) && to == s.backup
            &&& !s.vanilla ==> from == s.backup && to == join_path(s.platform, s.game, "MCC/Binaries/Win64"@)
            &&& s.stage == ModStage::ExtraExists(i) ==> {
                &&& mod_step(s, ModEventView::Flag(true)).0.stage == ModStage::ExtraDir(i)
                &&& mod_step(s, ModEventView::Flag(true)).1 == action(None, ModEffectView::CreateDirAll(to))
            }
            &&& s.stage == ModStage::ExtraDir(i) ==> {
                &&& mod_step(s, ModEventView::Done).0.stage == ModStage::ExtraMove(i)
                &&& mod_step(s, ModEventView::Done).1 == action(None, ModEffectView::Rename(
                    join_path(s.platform, from, name),
                    join_path(s.platform, to, name),
                ))
            }
            &&& (i == 0 && s.stage == ModStage::ExtraExists(0)) ==> {
                &&& mod_step(s, ModEventView::Flag(false)).0.stage == ModStage::ExtraExists(1)
                &&& mod_step(s, ModEventView::Flag(false)).1 == next_cfg
            }
            &&& (i == 0 && s.stage == ModStage::ExtraMove(0)) ==> {
                &&& mod_step(s, ModEventView::Done).0.stage == ModStage::ExtraExists(1)
                &&& mod_step(s, ModEventView::Done).1 == next_cfg
            }
        }),
{
}

/// The game is started only once both menu files have been looked for: the
/// only steps that spawn Steam are the one after `alpha_ring_menu.cfg` was
/// found missing and the one after it was moved.
pub proof fn law_launch_only_after_menu_files(s: ModState, e: ModEventView)
    requires
        event_fits(s.stage, e),
        stage_index_ok(s.stage),
        mod_step(s, e).1.effect is Spawn,
    ensures
        (s.stage == ModStage::ExtraExists(1) && e == ModEventView::Flag(false))
            || (s.stage == ModStage::ExtraMove(1) && e == ModEventView::Done),
{
}

} // verus!
