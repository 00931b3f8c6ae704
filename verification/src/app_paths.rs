//! The slot that remembers where the game was found.
//!
//! The launcher detects the game installation once and keeps the game
//! directory together with the directory in which mod files are parked
//! while the game is played without the mod.

use vstd::prelude::*;
use crate::platform::{Platform, join_path, path_join};

verus! {

/// Name of the directory, inside the game directory, where mod files are
/// parked for vanilla play.
pub open spec fn backup_dir_name() -> Seq<char> {
    "alpha_ring"@
}

/// Message returned when the paths are asked for before detection.
pub open spec fn paths_not_detected_message() -> Seq<char> {
    "Game path has not been detected yet; run checkOs first"@
}

/// The game directory and the backup directory.
pub struct AppPaths {
    pub game_path: String,
    pub backup_path: String,
}

/// Holds the detected paths, if detection has happened.
pub struct AppPathsLock {
    paths: Option<AppPaths>,
}

impl View for AppPathsLock {
    type V = Option<(Seq<char>, Seq<char>)>;

    closed spec fn view(&self) -> Option<(Seq<char>, Seq<char>)> {
        match self.paths {
            Some(p) => Some((p.game_path@, p.backup_path@)),
            None => None,
        }
    }
}

/// Whether `backup` is the `alpha_ring` directory inside `game`, joined the
/// way some platform joins paths.
pub open spec fn is_backup_of(backup: Seq<char>, game: Seq<char>) -> bool {
    exists|q: Platform| backup == #[trigger] join_path(q, game, backup_dir_name())
}

impl AppPathsLock {
    /// The slot only ever holds a game directory with its own backup
    /// directory.
    #[verifier::type_invariant]
    closed spec fn inv(self) -> bool {
        match self.paths {
            Some(ap) => is_backup_of(ap.backup_path@, ap.game_path@),
            None => true,
        }
    }
}

/// What the slot holds once `game_path` has been recorded.
pub open spec fn recorded_paths(p: Platform, game_path: Seq<char>) -> Option<(Seq<char>, Seq<char>)> {
    Some((game_path, join_path(p, game_path, backup_dir_name())))
}

/// What reading the slot gives: the two paths, or the not-detected message.
pub open spec fn read_paths(slot: Option<(Seq<char>, Seq<char>)>) -> Result<(Seq<char>, Seq<char>), Seq<char>> {
    match slot {
        Some((g, b)) => Ok((g, b)),
        None => Err(paths_not_detected_message()),
    }
}

/// The view of a read result.
pub open spec fn paths_result_view(r: Result<(String, String), String>) -> Result<(Seq<char>, Seq<char>), Seq<char>> {
    match r {
        Ok((g, b)) => Ok((g@, b@)),
        Err(e) => Err(e@),
    }
}

/// A fresh slot, empty until a game installation has been detected.
pub fn app_paths_lock() -> (lock: AppPathsLock)
    ensures
        lock@ == None::<(Seq<char>, Seq<char>)>,
{
    AppPathsLock { paths: None }
}

/// Records the game directory; the backup directory is `alpha_ring` inside it.
pub fn set_app_paths(lock: &mut AppPathsLock, p: Platform, game_path: String)
    ensures
        final(lock)@ == recorded_paths(p, game_path@),
{
    let backup_path = path_join(p, game_path.as_str(), "alpha_ring");
    assert(is_backup_of(backup_path@, game_path@)) by {
        assert(backup_path@ == join_path(p, game_path@, backup_dir_name()));
    }
    lock.paths = Some(AppPaths { game_path, backup_path });
}

/// The recorded game and backup directories, or an error when nothing has
/// been detected yet.
pub fn get_app_paths(lock: &AppPathsLock) -> (res: Result<(String, String), String>)
    ensures
        paths_result_view(res) == read_paths(lock@),
        res matches Ok((g, b)) ==> is_backup_of(b@, g@),
{
    proof {
        use_type_invariant(lock);
    }
    match &lock.paths {
        Some(paths) => Ok((paths.game_path.clone(), paths.backup_path.clone())),
        None => Err(String::from_str("Game path has not been detected yet; run checkOs first")),
    }
}

/// Reading the slot after recording a game directory gives back that
/// directory and its `alpha_ring` backup directory, whatever the slot held
/// before.
pub proof fn law_read_after_record(p: Platform, game_path: Seq<char>)
    ensures
        read_paths(recorded_paths(p, game_path)) == Ok::<(Seq<char>, Seq<char>), Seq<char>>(
            (game_path, join_path(p, game_path, backup_dir_name())),
        ),
{
}

/// Before anything is recorded, reading the slot fails with the
/// not-detected message.
pub proof fn law_read_before_record()
    ensures
        read_paths(None) == Err::<(Seq<char>, Seq<char>), Seq<char>>(paths_not_detected_message()),
{
}

} // verus!
