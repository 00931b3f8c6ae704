//! The host platform and the way it joins path components.
//!
//! Paths are held as text. Joining appends a relative component the way the
//! platform's path type does: a separator goes between the two parts unless
//! the base is empty, already ends in a separator, or (on Windows) is a bare
//! drive such as `D:`.

use vstd::prelude::*;
use crate::text::{chars_of, push_char};

verus! {

/// The operating system the launcher runs on.
#[derive(Clone, Copy, Debug, PartialEq, Eq, Structural)]
pub enum Platform {
    Windows,
    Linux,
}

/// Whether `c` separates path components on `p`.
pub open spec fn is_separator(p: Platform, c: char) -> bool {
    c == '/' || (p == Platform::Windows && c == '\\')
}

/// The separator that `p` inserts when it joins two components.
pub open spec fn main_separator(p: Platform) -> char {
    match p {
        Platform::Windows => '\\',
        Platform::Linux => '/',
    }
}

pub open spec fn is_ascii_letter(c: char) -> bool {
    ('a' <= c && c <= 'z') || ('A' <= c && c <= 'Z')
}

/// A Windows path that consists of a drive prefix alone, such as `C:`.
pub open spec fn is_bare_drive(p: Platform, s: Seq<char>) -> bool {
    p == Platform::Windows && s.len() == 2 && is_ascii_letter(s[0]) && s[1] == ':'
}

/// Whether joining onto `base` inserts a separator.
pub open spec fn needs_separator(p: Platform, base: Seq<char>) -> bool {
    base.len() > 0 && !is_separator(p, base.last()) && !is_bare_drive(p, base)
}

/// `base` with the relative component `rel` appended.
pub open spec fn join_path(p: Platform, base: Seq<char>, rel: Seq<char>) -> Seq<char> {
    if needs_separator(p, base) {
        base.push(main_separator(p)) + rel
    } else {
        base + rel
    }
}

fn separator_char(p: Platform) -> (c: char)
    ensures
        c == main_separator(p),
{
    match p {
        Platform::Windows => '\\',
        Platform::Linux => '/',
    }
}

fn is_separator_char(p: Platform, c: char) -> (b: bool)
    ensures
        b == is_separator(p, c),
{
    c == '/' || (matches!(p, Platform::Windows) && c == '\\')
}

fn is_letter_char(c: char) -> (b: bool)
    ensures
        b == is_ascii_letter(c),
{
    ('a' <= c && c <= 'z') || ('A' <= c && c <= 'Z')
}

/// Appends the component `rel` to `base`. `rel` is taken as relative: an
/// absolute or prefixed `rel` is appended like any other text, where the
/// platform's own path type would let it replace `base`. Every caller in this
/// library passes a fixed relative name.
pub fn path_join(p: Platform, base: &str, rel: &str) -> (res: String)
    ensures
        res@ == join_path(p, base@, rel@),
{
    let cs = chars_of(base);
    let n = cs.len();
    let bare_drive = matches!(p, Platform::Windows) && n == 2 && is_letter_char(cs[0]) && cs[1] == ':';
    let mut res = String::from_str(base);
    if n > 0 && !is_separator_char(p, cs[n - 1]) && !bare_drive {
        push_char(&mut res, separator_char(p));
    }
    res.append(rel);
    res
}

/// Joining never drops either part: the result begins with the base and ends
/// with the appended component.
pub proof fn law_join_keeps_parts(p: Platform, base: Seq<char>, rel: Seq<char>)
    ensures
        join_path(p, base, rel).take(base.len() as int) == base,
        join_path(p, base, rel).skip(join_path(p, base, rel).len() - rel.len()) == rel,
        join_path(p, base, rel).len() == base.len() + rel.len() + (if needs_separator(p, base) { 1int } else { 0int }),
{
    let j = join_path(p, base, rel);
    if needs_separator(p, base) {
        assert(j.take(base.len() as int) =~= base);
        assert(j.skip(j.len() - rel.len()) =~= rel);
    } else {
        assert(j.take(base.len() as int) =~= base);
        assert(j.skip(j.len() - rel.len()) =~= rel);
    }
}

} // verus!
