//! The command that starts the game through Steam.

use vstd::prelude::*;
use crate::platform::Platform;

verus! {

/// A program to start, with its arguments and extra environment variables.
#[derive(Debug)]
pub struct LaunchCommand {
    pub program: String,
    pub args: Vec<String>,
    pub env: Vec<(String, String)>,
}

/// The model of a launch command.
pub struct LaunchCommandView {
    pub program: Seq<char>,
    pub args: Seq<Seq<char>>,
    pub env: Seq<(Seq<char>, Seq<char>)>,
}

impl View for LaunchCommand {
    type V = LaunchCommandView;

    open spec fn view(&self) -> LaunchCommandView {
        LaunchCommandView {
            program: self.program@,
            args: self.args.deep_view(),
            env: self.env@.map_values(|kv: (String, String)| (kv.0@, kv.1@)),
        }
    }
}

/// The flag that turns on the anti-cheat-free mode, which the mod needs.
pub open spec fn anticheat_flag() -> Seq<char> {
    "-eac"@
}

/// How the game is started: `steam -applaunch 976730`, followed by `-eac`
/// when the mod is to be loaded; on Linux, loading the mod also tells Wine to
/// prefer the mod's `WTSAPI32` library over its own.
pub open spec fn launch_spec(p: Platform, vanilla: bool) -> LaunchCommandView {
    LaunchCommandView {
        program: "steam"@,
        args: seq!["-applaunch"@, "976730"@] + if vanilla { Seq::empty() } else { seq![anticheat_flag()] },
        env: if !vanilla && p == Platform::Linux {
            seq![("WINEDLLOVERRIDES"@, "WTSAPI32=n,b"@)]
        } else {
            Seq::empty()
        },
    }
}

/// The command that starts the game, with or without the mod.
pub fn launch_command(p: Platform, vanilla: bool) -> (cmd: LaunchCommand)
    ensures
        cmd@ == launch_spec(p, vanilla),
{
    let mut args: Vec<String> = Vec::new();
    args.push(String::from_str("-applaunch"));
    args.push(String::from_str("976730"));
    let mut env: Vec<(String, String)> = Vec::new();
    if !vanilla {
        if matches!(p, Platform::Linux) {
            env.push((String::from_str("WINEDLLOVERRIDES"), String::from_str("WTSAPI32=n,b")));
        }
        args.push(String::from_str("-eac"));
    }
    let cmd = LaunchCommand { program: String::from_str("steam"), args, env };
    assert(cmd@.args =~= launch_spec(p, vanilla).args);
    assert(cmd@.env =~= launch_spec(p, vanilla).env);
    cmd
}

/// On every platform Steam is started with `-applaunch 976730`; the
/// anti-cheat flag `-eac` is among the arguments exactly when the mod is
/// loaded, and only a modded launch on Linux sets an environment variable,
/// the Wine override that prefers the mod's `WTSAPI32`.
pub proof fn law_launch_arguments(p: Platform, vanilla: bool)
    ensures
        launch_spec(p, vanilla).program == "steam"@,
        vanilla ==> launch_spec(p, vanilla).args == seq!["-applaunch"@, "976730"@],
        !vanilla ==> launch_spec(p, vanilla).args == seq!["-applaunch"@, "976730"@, "-eac"@],
        launch_spec(p, vanilla).args.contains("-eac"@) <==> !vanilla,
        vanilla ==> launch_spec(p, vanilla).env.len() == 0,
        !vanilla && p == Platform::Windows ==> launch_spec(p, vanilla).env.len() == 0,
        !vanilla && p == Platform::Linux ==> launch_spec(p, vanilla).env == seq![("WINEDLLOVERRIDES"@, "WTSAPI32=n,b"@)],
{
    let args = launch_spec(p, vanilla).args;
    reveal_strlit("-applaunch");
    reveal_strlit("976730");
    reveal_strlit("-eac");
    assert("-applaunch"@ != "-eac"@) by {
        assert("-applaunch"@.len() != "-eac"@.len());
    }
    assert("976730"@ != "-eac"@) by {
        assert("976730"@.len() != "-eac"@.len());
    }
    if vanilla {
        assert(args =~= seq!["-applaunch"@, "976730"@]);
        if args.contains("-eac"@) {
            let k = choose|k: int| 0 <= k < args.len() && args[k] == "-eac"@;
            assert(k == 0 || k == 1);
        }
    } else {
        assert(args =~= seq!["-applaunch"@, "976730"@, "-eac"@]);
        assert(args[2] == "-eac"@);
    }
}

} // verus!
