//! Finding the game installation.
//!
//! The search walks the candidate Steam roots in order. For a root whose
//! `steamapps` directory exists, the libraries to look in are the root
//! itself followed by the folders listed in its `libraryfolders.vdf`; the
//! first library holding the game directory wins. When no root yields it,
//! the game is not found.
//!
//! The search is a state machine: each step hands back the question it needs
//! answered about the filesystem (is this a directory, what does this file
//! hold) and takes the answer in the next step.

use vstd::prelude::*;
use crate::platform::{Platform, join_path, path_join};
use crate::library_folders::{library_folders, parse_library_folders};
use crate::steam_roots::option_string_view;
use crate::app_paths::{AppPathsLock, set_app_paths, recorded_paths};

verus! {

/// Where the game lies inside a Steam library.
pub open spec fn game_subpath() -> Seq<char> {
    "steamapps/common/Halo The Master Chief Collection"@
}

pub open spec fn steamapps_dir(p: Platform, root: Seq<char>) -> Seq<char> {
    join_path(p, root, "steamapps"@)
}

pub open spec fn library_file(p: Platform, root: Seq<char>) -> Seq<char> {
    join_path(p, steamapps_dir(p, root), "libraryfolders.vdf"@)
}

pub open spec fn game_dir(p: Platform, library: Seq<char>) -> Seq<char> {
    join_path(p, library, game_subpath())
}

/// What the search can see of the filesystem: which paths are directories,
/// and what text a file holds (none when it cannot be read).
pub struct FsView {
    pub is_dir: spec_fn(Seq<char>) -> bool,
    pub read: spec_fn(Seq<char>) -> Option<Seq<char>>,
}

/// The libraries of a root: the root itself, then the folders that its
/// `libraryfolders.vdf` lists.
pub open spec fn libraries_for_contents(root: Seq<char>, contents: Option<Seq<char>>) -> Seq<Seq<char>> {
    seq![root] + match contents {
        Some(t) => library_folders(t),
        None => Seq::empty(),
    }
}

/// The first library from index `j` on that holds the game.
pub open spec fn search_libraries(p: Platform, libs: Seq<Seq<char>>, j: int, fs: FsView) -> Option<Seq<char>>
    decreases libs.len() - j,
{
    if j < 0 || j >= libs.len() {
        None
    } else if (fs.is_dir)(game_dir(p, libs[j])) {
        Some(game_dir(p, libs[j]))
    } else {
        search_libraries(p, libs, j + 1, fs)
    }
}

/// The game directory found in root `roots[i]`, if any.
pub open spec fn search_in_root(p: Platform, root: Seq<char>, fs: FsView) -> Option<Seq<char>> {
    if (fs.is_dir)(steamapps_dir(p, root)) {
        search_libraries(p, libraries_for_contents(root, (fs.read)(library_file(p, root))), 0, fs)
    } else {
        None
    }
}

/// The first game directory found from root index `i` on.
pub open spec fn search_roots(p: Platform, roots: Seq<Seq<char>>, i: int, fs: FsView) -> Option<Seq<char>>
    decreases roots.len() - i,
{
    if i < 0 || i >= roots.len() {
        None
    } else {
        match search_in_root(p, roots[i], fs) {
            Some(g) => Some(g),
            None => search_roots(p, roots, i + 1, fs),
        }
    }
}

/// Where the game is, given the candidate roots and the filesystem.
pub open spec fn locate_game(p: Platform, roots: Seq<Seq<char>>, fs: FsView) -> Option<Seq<char>> {
    search_roots(p, roots, 0, fs)
}

/// The stage of a search.
#[derive(Clone, Copy, PartialEq, Eq, Structural)]
pub enum SearchStage {
    /// Waiting to learn whether the current root has a `steamapps` directory.
    SteamApps,
    /// Waiting for the current root's `libraryfolders.vdf`.
    LibraryFile,
    /// Waiting to learn whether the current library holds the game.
    Candidate,
    /// The search is over.
    Finished,
}

/// The model of a search.
pub struct SearchState {
    pub platform: Platform,
    pub roots: Seq<Seq<char>>,
    pub root: int,
    pub libraries: Seq<Seq<char>>,
    pub library: int,
    pub stage: SearchStage,
    pub found: Option<Seq<char>>,
}

/// What the search asks for, or how it ended.
pub enum SearchRequest {
    IsDir(Seq<char>),
    ReadLibraryFolders(Seq<char>),
    Found(Seq<char>),
    NotFound,
}

/// An answer, as the model sees it.
pub enum SearchReply {
    IsDir(bool),
    LibraryFolders(Option<Seq<char>>),
}

/// What a search asks for next, or how it ended.
#[derive(Debug)]
pub enum SearchAction {
    /// Tell whether this path is a directory.
    IsDir(String),
    /// Hand over the text of this file, or `None` when it cannot be read.
    ReadLibraryFolders(String),
    /// The game is in this directory.
    Found(String),
    /// The game was not found.
    NotFound,
}

/// The answer to the question of the last action.
#[derive(Debug)]
pub enum SearchAnswer {
    IsDir(bool),
    LibraryFolders(Option<String>),
}

impl View for SearchAction {
    type V = SearchRequest;

    open spec fn view(&self) -> SearchRequest {
        match self {
            SearchAction::IsDir(p) => SearchRequest::IsDir(p@),
            SearchAction::ReadLibraryFolders(p) => SearchRequest::ReadLibraryFolders(p@),
            SearchAction::Found(p) => SearchRequest::Found(p@),
            SearchAction::NotFound => SearchRequest::NotFound,
        }
    }
}

impl View for SearchAnswer {
    type V = SearchReply;

    open spec fn view(&self) -> SearchReply {
        match self {
            SearchAnswer::IsDir(b) => SearchReply::IsDir(*b),
            SearchAnswer::LibraryFolders(Some(t)) => SearchReply::LibraryFolders(Some(t@)),
            SearchAnswer::LibraryFolders(None) => SearchReply::LibraryFolders(None),
        }
    }
}

/// A search in progress.
pub struct GameSearch {
    platform: Platform,
    roots: Vec<String>,
    root: usize,
    libraries: Vec<String>,
    library: usize,
    stage: SearchStage,
    found: Option<String>,
}

impl View for GameSearch {
    type V = SearchState;

    closed spec fn view(&self) -> SearchState {
        SearchState {
            platform: self.platform,
            roots: self.roots.deep_view(),
            root: self.root as int,
            libraries: self.libraries.deep_view(),
            library: self.library as int,
            stage: self.stage,
            found: match self.found {
                Some(g) => Some(g@),
                None => None,
            },
        }
    }
}

/// The shape every search keeps: the indices point into their lists while
/// an answer is awaited.
pub open spec fn search_wf(s: SearchState) -> bool {
    &&& 0 <= s.root <= s.roots.len()
    &&& 0 <= s.library
    &&& s.stage != SearchStage::Finished ==> s.root < s.roots.len()
    &&& s.stage == SearchStage::Candidate ==> s.library < s.libraries.len()
}

/// The state that looks at the roots from index `i` on.
pub open spec fn from_root(s: SearchState, i: int) -> SearchState {
    if i < s.roots.len() {
        SearchState { root: i, library: 0, libraries: Seq::empty(), stage: SearchStage::SteamApps, found: None, ..s }
    } else {
        SearchState { root: s.roots.len() as int, library: 0, libraries: Seq::empty(), stage: SearchStage::Finished, found: None, ..s }
    }
}

/// A search that has not yet asked anything.
pub open spec fn start_state(p: Platform, roots: Seq<Seq<char>>) -> SearchState {
    from_root(
        SearchState {
            platform: p,
            roots,
            root: 0,
            libraries: Seq::empty(),
            library: 0,
            stage: SearchStage::SteamApps,
            found: None,
        },
        0,
    )
}

/// What a state asks for, or how it ended.
pub open spec fn pending_request(s: SearchState) -> SearchRequest {
    match s.stage {
        SearchStage::SteamApps => SearchRequest::IsDir(steamapps_dir(s.platform, s.roots[s.root])),
        SearchStage::LibraryFile => SearchRequest::ReadLibraryFolders(library_file(s.platform, s.roots[s.root])),
        SearchStage::Candidate => SearchRequest::IsDir(game_dir(s.platform, s.libraries[s.library])),
        SearchStage::Finished => match s.found {
            Some(g) => SearchRequest::Found(g),
            None => SearchRequest::NotFound,
        },
    }
}

/// The state after `s` receives answer `a`. An answer of the wrong kind, or
/// any answer once the search is over, leaves the state as it is.
pub open spec fn search_step(s: SearchState, a: SearchReply) -> SearchState {
    match (s.stage, a) {
        (SearchStage::SteamApps, SearchReply::IsDir(true)) => SearchState { stage: SearchStage::LibraryFile, ..s },
        (SearchStage::SteamApps, SearchReply::IsDir(false)) => from_root(s, s.root + 1),
        (SearchStage::LibraryFile, SearchReply::LibraryFolders(contents)) => SearchState {
            stage: SearchStage::Candidate,
            libraries: libraries_for_contents(s.roots[s.root], contents),
            library: 0,
            ..s
        },
        (SearchStage::Candidate, SearchReply::IsDir(true)) => SearchState {
            stage: SearchStage::Finished,
            found: Some(game_dir(s.platform, s.libraries[s.library])),
            ..s
        },
        (SearchStage::Candidate, SearchReply::IsDir(false)) => if s.library + 1 < s.libraries.len() {
            SearchState { library: s.library + 1, ..s }
        } else {
            from_root(s, s.root + 1)
        },
        _ => s,
    }
}

/// The answer a filesystem gives to a request.
pub open spec fn fs_reply(fs: FsView, r: SearchRequest) -> SearchReply {
    match r {
        SearchRequest::IsDir(path) => SearchReply::IsDir((fs.is_dir)(path)),
        SearchRequest::ReadLibraryFolders(path) => SearchReply::LibraryFolders((fs.read)(path)),
        _ => SearchReply::IsDir(false),
    }
}

/// `n` steps of a search answered by `fs`.
pub open spec fn run_search(s: SearchState, fs: FsView, n: nat) -> SearchState
    decreases n,
{
    if n == 0 || s.stage == SearchStage::Finished {
        s
    } else {
        run_search(search_step(s, fs_reply(fs, pending_request(s))), fs, (n - 1) as nat)
    }
}

/// What a state will find if every question is answered by `fs`.
pub open spec fn search_outcome(s: SearchState, fs: FsView) -> Option<Seq<char>> {
    match s.stage {
        SearchStage::Finished => s.found,
        SearchStage::SteamApps => search_roots(s.platform, s.roots, s.root, fs),
        SearchStage::LibraryFile => match search_libraries(
            s.platform,
            libraries_for_contents(s.roots[s.root], (fs.read)(library_file(s.platform, s.roots[s.root]))),
            0,
            fs,
        ) {
            Some(g) => Some(g),
            None => search_roots(s.platform, s.roots, s.root + 1, fs),
        },
        SearchStage::Candidate => match search_libraries(s.platform, s.libraries, s.library, fs) {
            Some(g) => Some(g),
            None => search_roots(s.platform, s.roots, s.root + 1, fs),
        },
    }
}

pub open spec fn stage_rank(st: SearchStage) -> int {
    match st {
        SearchStage::SteamApps => 3,
        SearchStage::LibraryFile => 2,
        SearchStage::Candidate => 1,
        SearchStage::Finished => 0,
    }
}

/// One answered step keeps the shape of the state and does not change what
/// the search will find.
pub proof fn lemma_step_keeps_outcome(s: SearchState, fs: FsView)
    requires
        search_wf(s),
        s.stage != SearchStage::Finished,
    ensures
        search_wf(search_step(s, fs_reply(fs, pending_request(s)))),
        search_outcome(search_step(s, fs_reply(fs, pending_request(s))), fs) == search_outcome(s, fs),
        search_step(s, fs_reply(fs, pending_request(s))).roots == s.roots,
        search_step(s, fs_reply(fs, pending_request(s))).platform == s.platform,
{
    let t = search_step(s, fs_reply(fs, pending_request(s)));
    match s.stage {
        SearchStage::SteamApps => {
            assert(search_roots(s.platform, s.roots, s.root, fs) == match search_in_root(s.platform, s.roots[s.root], fs) {
                Some(g) => Some(g),
                None => search_roots(s.platform, s.roots, s.root + 1, fs),
            });
            if s.root + 1 >= s.roots.len() {
                assert(search_roots(s.platform, s.roots, s.root + 1, fs) == None::<Seq<char>>);
            }
        },
        SearchStage::LibraryFile => {},
        SearchStage::Candidate => {
            if !(fs.is_dir)(game_dir(s.platform, s.libraries[s.library])) && s.library + 1 >= s.libraries.len() {
                assert(search_libraries(s.platform, s.libraries, s.library + 1, fs) == None::<Seq<char>>);
                if s.root + 1 >= s.roots.len() {
                    assert(search_roots(s.platform, s.roots, s.root + 1, fs) == None::<Seq<char>>);
                }
            }
        },
        SearchStage::Finished => {},
    }
}

/// A search answered throughout by one filesystem comes to an end, and ends
/// with what `search_outcome` says.
pub proof fn lemma_search_finishes(s: SearchState, fs: FsView)
    requires
        search_wf(s),
    ensures
        exists|n: nat| {
            &&& #[trigger] run_search(s, fs, n).stage == SearchStage::Finished
            &&& run_search(s, fs, n).found == search_outcome(s, fs)
        },
    decreases s.roots.len() - s.root, stage_rank(s.stage), s.libraries.len() - s.library,
{
    if s.stage == SearchStage::Finished {
        assert(run_search(s, fs, 0).stage == SearchStage::Finished);
    } else {
        let t = search_step(s, fs_reply(fs, pending_request(s)));
        lemma_step_keeps_outcome(s, fs);
        lemma_search_finishes(t, fs);
        let n = choose|n: nat| {
            &&& #[trigger] run_search(t, fs, n).stage == SearchStage::Finished
            &&& run_search(t, fs, n).found == search_outcome(t, fs)
        };
        assert(run_search(s, fs, n + 1) == run_search(t, fs, n));
    }
}

/// A search over `roots`, answered throughout by one filesystem, ends by
/// reporting the game directory of the first library, in search order, that
/// holds the game, or that the game was not found when none does.
pub proof fn law_search_finds_first_installation(p: Platform, roots: Seq<Seq<char>>, fs: FsView)
    ensures
        exists|n: nat| {
            &&& #[trigger] run_search(start_state(p, roots), fs, n).stage == SearchStage::Finished
            &&& pending_request(run_search(start_state(p, roots), fs, n)) == match locate_game(p, roots, fs) {
                Some(g) => SearchRequest::Found(g),
                None => SearchRequest::NotFound,
            }
        },
{
    let s = start_state(p, roots);
    if roots.len() == 0 {
        assert(search_roots(p, roots, 0, fs) == None::<Seq<char>>);
    }
    lemma_search_finishes(s, fs);
}

proof fn lemma_finished_run_reports_outcome(s: SearchState, fs: FsView, n: nat)
    requires
        search_wf(s),
        run_search(s, fs, n).stage == SearchStage::Finished,
    ensures
        run_search(s, fs, n).found == search_outcome(s, fs),
    decreases n,
{
    if s.stage != SearchStage::Finished && n > 0 {
        let t = search_step(s, fs_reply(fs, pending_request(s)));
        lemma_step_keeps_outcome(s, fs);
        lemma_finished_run_reports_outcome(t, fs, (n - 1) as nat);
    }
}

/// Two searches over the same roots, answered by the same filesystem, end
/// with the same report, whatever number of steps each took.
pub proof fn law_search_is_deterministic(p: Platform, roots: Seq<Seq<char>>, fs: FsView, n1: nat, n2: nat)
    requires
        run_search(start_state(p, roots), fs, n1).stage == SearchStage::Finished,
        run_search(start_state(p, roots), fs, n2).stage == SearchStage::Finished,
    ensures
        pending_request(run_search(start_state(p, roots), fs, n1))
            == pending_request(run_search(start_state(p, roots), fs, n2)),
        pending_request(run_search(start_state(p, roots), fs, n1)) == match locate_game(p, roots, fs) {
            Some(g) => SearchRequest::Found(g),
            None => SearchRequest::NotFound,
        },
{
    let s = start_state(p, roots);
    if roots.len() == 0 {
        assert(search_roots(p, roots, 0, fs) == None::<Seq<char>>);
    }
    lemma_finished_run_reports_outcome(s, fs, n1);
    lemma_finished_run_reports_outcome(s, fs, n2);
}

/// A search only ever asks to look at the filesystem: whether a path is a
/// directory, and what a `libraryfolders.vdf` file holds. It never asks for
/// anything to be created, written, renamed or removed.
pub proof fn law_search_only_reads(s: SearchState)
    requires
        s.stage != SearchStage::Finished,
    ensures
        pending_request(s) is IsDir || pending_request(s) is ReadLibraryFolders,
{
}

impl GameSearch {
    #[verifier::type_invariant]
    closed spec fn inv(self) -> bool {
        search_wf(self@)
    }

    /// What this search asks for next, or how it ended.
    pub fn pending_action(&self) -> (a: SearchAction)
        ensures
            a@ == pending_request(self@),
    {
        proof {
            use_type_invariant(self);
        }
        match self.stage {
            SearchStage::SteamApps => SearchAction::IsDir(
                path_join(self.platform, self.roots[self.root].as_str(), "steamapps"),
            ),
            SearchStage::LibraryFile => {
                let apps = path_join(self.platform, self.roots[self.root].as_str(), "steamapps");
                SearchAction::ReadLibraryFolders(path_join(self.platform, apps.as_str(), "libraryfolders.vdf"))
            },
            SearchStage::Candidate => SearchAction::IsDir(
                path_join(
                    self.platform,
                    self.libraries[self.library].as_str(),
                    "steamapps/common/Halo The Master Chief Collection",
                ),
            ),
            SearchStage::Finished => match &self.found {
                Some(g) => SearchAction::Found(g.clone()),
                None => SearchAction::NotFound,
            },
        }
    }
}

fn search_from_root(platform: Platform, roots: Vec<String>, i: usize) -> (s: GameSearch)
    ensures
        s@ == from_root(SearchState {
            platform,
            roots: roots.deep_view(),
            root: 0,
            libraries: Seq::empty(),
            library: 0,
            stage: SearchStage::SteamApps,
            found: None,
        }, i as int),
{
    let n = roots.len();
    let libraries: Vec<String> = Vec::new();
    assert(libraries.deep_view() =~= Seq::<Seq<char>>::empty());
    if i < n {
        GameSearch { platform, roots, root: i, libraries, library: 0, stage: SearchStage::SteamApps, found: None }
    } else {
        GameSearch { platform, roots, root: n, libraries, library: 0, stage: SearchStage::Finished, found: None }
    }
}

/// A search over `roots`, in order, on platform `p`.
pub fn start_game_search(p: Platform, roots: Vec<String>) -> (s: GameSearch)
    ensures
        s@ == start_state(p, roots.deep_view()),
{
    search_from_root(p, roots, 0)
}

/// Takes the answer to the search's last question and returns the search
/// after it, with what it asks for next or how it ended.
pub fn find_game_path(search: GameSearch, answer: SearchAnswer) -> (res: (GameSearch, SearchAction))
    ensures
        res.0@ == search_step(search@, answer@),
        res.1@ == pending_request(res.0@),
{
    proof {
        use_type_invariant(&search);
    }
    let ghost s = search@;
    let ghost av = answer@;
    let GameSearch { platform, roots, root, libraries, library, stage, found } = search;
    assert(roots.deep_view().len() == roots.len());
    assert(libraries.deep_view().len() == libraries.len());
    let next = match (stage, answer) {
        (SearchStage::SteamApps, SearchAnswer::IsDir(true)) => {
            let r = GameSearch { platform, roots, root, libraries, library, stage: SearchStage::LibraryFile, found };
            assert(r@ == search_step(s, av));
            r
        },
        (SearchStage::SteamApps, SearchAnswer::IsDir(false)) => {
            search_from_root(platform, roots, root + 1)
        },
        (SearchStage::LibraryFile, SearchAnswer::LibraryFolders(contents)) => {
            let mut libs: Vec<String> = Vec::new();
            libs.push(roots[root].clone());
            let ghost contents_view = option_string_view(contents);
            match contents {
                Some(text) => {
                    let mut listed = parse_library_folders(text.as_str());
                    libs.append(&mut listed);
                },
                None => {},
            }
            assert(libs.deep_view() =~= libraries_for_contents(s.roots[s.root], contents_view));
            let r = GameSearch { platform, roots, root, libraries: libs, library: 0, stage: SearchStage::Candidate, found };
            assert(r@ == search_step(s, av));
            r
        },
        (SearchStage::Candidate, SearchAnswer::IsDir(true)) => {
            let g = path_join(
                platform,
                libraries[library].as_str(),
                "steamapps/common/Halo The Master Chief Collection",
            );
            let r = GameSearch { platform, roots, root, libraries, library, stage: SearchStage::Finished, found: Some(g) };
            assert(r@ == search_step(s, av));
            r
        },
        (SearchStage::Candidate, SearchAnswer::IsDir(false)) => {
            if library + 1 < libraries.len() {
                let r = GameSearch { platform, roots, root, libraries, library: library + 1, stage, found };
                assert(r@ == search_step(s, av));
                r
            } else {
                search_from_root(platform, roots, root + 1)
            }
        },
        (stage, _) => GameSearch { platform, roots, root, libraries, library, stage, found },
    };
    let a = next.pending_action();
    (next, a)
}

/// Message when no installation was found.
pub open spec fn not_found_message() -> Seq<char> {
    "Couldn't find MCC"@
}

/// Message announcing where the game was found.
pub open spec fn found_message(game_path: Seq<char>) -> Seq<char> {
    "Found game installation at "@ + game_path
}

/// The lines logged when detection starts: the platform, then the check.
pub open spec fn detection_opening(p: Platform) -> Seq<Seq<char>> {
    seq![
        match p {
            Platform::Windows => "Running Windows version"@,
            Platform::Linux => "Running Linux version"@,
        },
        "Checking MCC installation..."@,
    ]
}

/// The lines logged when detection starts on `p`.
pub fn detection_opening_logs(p: Platform) -> (logs: Vec<String>)
    ensures
        logs.deep_view() == detection_opening(p),
{
    let mut logs: Vec<String> = Vec::new();
    match p {
        Platform::Windows => logs.push(String::from_str("Running Windows version")),
        Platform::Linux => logs.push(String::from_str("Running Linux version")),
    }
    logs.push(String::from_str("Checking MCC installation..."));
    assert(logs.deep_view() =~= detection_opening(p));
    logs
}

/// Concludes detection with the outcome of the search: when the game was
/// found, its directory is recorded and the line to log is returned;
/// otherwise the slot is left as it was and detection fails.
pub fn check_os(lock: &mut AppPathsLock, p: Platform, found: Option<String>) -> (res: Result<String, String>)
    ensures
        match found {
            Some(g) => {
                &&& final(lock)@ == recorded_paths(p, g@)
                &&& res matches Ok(m) && m@ == found_message(g@)
            },
            None => {
                &&& final(lock)@ == old(lock)@
                &&& res matches Err(e) && e@ == not_found_message()
            },
        },
{
    match found {
        Some(g) => {
            let msg = String::from_str("Found game installation at ").concat(g.as_str());
            set_app_paths(lock, p, g);
            Ok(msg)
        },
        None => Err(String::from_str("Couldn't find MCC")),
    }
}

} // verus!
