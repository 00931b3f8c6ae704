//! Where Steam may be installed.

use vstd::prelude::*;
use crate::platform::{Platform, join_path, path_join};
use crate::text::{ascii_char, push_char};

verus! {

/// The letter of the `i`-th drive searched after `C:` (`D:` is the first).
pub open spec fn drive_letter(i: int) -> char {
    (68 + i) as char
}

/// The `k`-th root searched on a drive other than `C:`: two per drive,
/// first `<X>:/Steam`, then `<X>:/SteamLibrary`, for drives `D:` to `Z:`.
pub open spec fn drive_root(k: int) -> Seq<char> {
    seq![drive_letter(k / 2), ':', '/'] + if k % 2 == 0 { "Steam"@ } else { "SteamLibrary"@ }
}

/// Number of roots searched on drives `D:` to `Z:`.
pub open spec fn drive_root_count() -> int {
    46
}

/// The Steam installations to look at, in the order in which they are
/// searched. On Windows these are the two `C:` program folders and the
/// `Steam` and `SteamLibrary` folders of drives `D:` to `Z:`; on Linux the
/// four usual locations under the home directory (none when it is unknown).
pub open spec fn steam_roots(p: Platform, home: Option<Seq<char>>) -> Seq<Seq<char>> {
    match p {
        Platform::Windows => seq!["C:/Program Files (x86)/Steam"@, "C:/Program Files/Steam"@]
            + Seq::new(drive_root_count() as nat, |k: int| drive_root(k)),
        Platform::Linux => match home {
            Some(h) => seq![
                join_path(p, h, ".local/share/Steam"@),
                join_path(p, h, ".steam/steam"@),
                join_path(p, h, ".steam/root"@),
                join_path(p, h, ".var/app/com.valvesoftware.Steam/data/Steam"@),
            ],
            None => Seq::empty(),
        },
    }
}

pub open spec fn option_string_view(o: Option<String>) -> Option<Seq<char>> {
    match o {
        Some(s) => Some(s@),
        None => None,
    }
}

fn drive_root_string(b: u8, library: bool) -> (res: String)
    requires
        68 <= b <= 90,
    ensures
        res@ == seq![drive_letter(b - 68), ':', '/'] + if library { "SteamLibrary"@ } else { "Steam"@ },
{
    let mut s = String::new();
    let c = ascii_char(b);
    assert(c == drive_letter(b - 68));
    push_char(&mut s, c);
    push_char(&mut s, ':');
    push_char(&mut s, '/');
    if library {
        s.append("SteamLibrary");
    } else {
        s.append("Steam");
    }
    assert(s@ =~= seq![drive_letter(b - 68), ':', '/'] + if library { "SteamLibrary"@ } else { "Steam"@ });
    s
}

/// The Steam installations to look at on `p`; `home` is the user's home
/// directory when it is known (it matters on Linux only).
pub fn steam_root_candidates(p: Platform, home: Option<String>) -> (res: Vec<String>)
    ensures
        res.deep_view() == steam_roots(p, option_string_view(home)),
{
    match p {
        Platform::Windows => {
            let mut roots: Vec<String> = Vec::new();
            roots.push(String::from_str("C:/Program Files (x86)/Steam"));
            roots.push(String::from_str("C:/Program Files/Steam"));
            let ghost head = seq!["C:/Program Files (x86)/Steam"@, "C:/Program Files/Steam"@];
            assert(roots.deep_view() =~= head);
            let mut b: u8 = 68;
            while b <= 90
                invariant
                    68 <= b <= 91,
                    roots.deep_view() =~= head + Seq::new((2 * (b - 68)) as nat, |k: int| drive_root(k)),
                decreases 91 - b,
            {
                let ghost before = roots.deep_view();
                let k = 2 * (b - 68) as usize;
                roots.push(drive_root_string(b, false));
                roots.push(drive_root_string(b, true));
                assert(drive_root(k as int) == seq![drive_letter(b - 68), ':', '/'] + "Steam"@) by {
                    assert((k as int) / 2 == b - 68);
                    assert((k as int) % 2 == 0);
                }
                assert(drive_root(k as int + 1) == seq![drive_letter(b - 68), ':', '/'] + "SteamLibrary"@) by {
                    assert((k as int + 1) / 2 == b - 68);
                    assert((k as int + 1) % 2 == 1);
                }
                assert(roots.deep_view() =~= before.push(drive_root(k as int)).push(drive_root(k as int + 1)));
                assert(roots.deep_view() =~= head + Seq::new((2 * (b + 1 - 68)) as nat, |k: int| drive_root(k)));
                b += 1;
            }
            roots
        },
        Platform::Linux => {
            let mut roots: Vec<String> = Vec::new();
            match home {
                Some(h) => {
                    roots.push(path_join(p, h.as_str(), ".local/share/Steam"));
                    roots.push(path_join(p, h.as_str(), ".steam/steam"));
                    roots.push(path_join(p, h.as_str(), ".steam/root"));
                    roots.push(path_join(p, h.as_str(), ".var/app/com.valvesoftware.Steam/data/Steam"));
                    assert(roots.deep_view() =~= steam_roots(p, option_string_view(Some(h))));
                },
                None => {
                    assert(roots.deep_view() =~= Seq::<Seq<char>>::empty());
                },
            }
            roots
        },
    }
}

} // verus!
