# alpharing_launcher

The verified core of a launcher for the AlphaRing mod of Halo: The Master
Chief Collection. The library finds the game's Steam installation, reads
Steam's `libraryfolders.vdf`, picks the mod out of the latest GitHub release,
compares SHA-256 digests of the installed and released mod, decides which
files to move, download or restore, and builds the Steam command that starts
the game. Every function states its behaviour as a Verus contract over a
mathematical model, and the properties that span several steps are proved as
laws.

Layout:

- `src/platform.rs` – platforms and joining path components.
- `src/app_paths.rs` – the slot holding the detected game and backup directories.
- `src/steam_roots.rs` – the Steam installations to look at.
- `src/library_folders.rs` – the `libraryfolders.vdf` reader.
- `src/game_search.rs` – the search for the game, as a state machine answered by the caller.
- `src/digest.rs` – SHA-256 (through the `sha2` crate) and lowercase hex.
- `src/release.rs` – the mod's download URL and version in a release.
- `src/launch.rs` – the launch command.
- `src/mod_check.rs` – the mod check, as a state machine whose effects the caller carries out.
- `src/report.rs` – the line that reports an error.
- `app/` – the Tauri application: window, network, filesystem and process.
- `tests/` – tests of the library on concrete values.
