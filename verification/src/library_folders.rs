//! Reading Steam's `libraryfolders.vdf`.
//!
//! Steam records every library folder the user has added in this file, one
//! `"path"  "<folder>"` entry per folder. A line counts as an entry when,
//! after its leading white space, it begins with `"path"`; the folder is the
//! fourth piece of the line when it is split at double quotes.

use vstd::prelude::*;
use crate::text::{chars_of, string_from_chars};

verus! {

/// The Unicode `White_Space` property, which `char::is_whitespace` tests.
pub open spec fn is_white_space(c: char) -> bool {
    ('\u{9}' <= c && c <= '\u{d}') || c == ' ' || c == '\u{85}' || c == '\u{a0}'
        || c == '\u{1680}' || ('\u{2000}' <= c && c <= '\u{200a}') || c == '\u{2028}'
        || c == '\u{2029}' || c == '\u{202f}' || c == '\u{205f}' || c == '\u{3000}'
}

/// Index of the first `c` in `s`, if any.
pub open spec fn first_index(s: Seq<char>, c: char) -> Option<nat>
    decreases s.len(),
{
    if s.len() == 0 {
        None
    } else if s[0] == c {
        Some(0)
    } else {
        match first_index(s.drop_first(), c) {
            Some(i) => Some(i + 1),
            None => None,
        }
    }
}

/// A line without its trailing carriage return.
pub open spec fn strip_cr(line: Seq<char>) -> Seq<char> {
    if line.len() > 0 && line.last() == '\r' {
        line.drop_last()
    } else {
        line
    }
}

/// The lines of a text as `str::lines` yields them: split at `\n`, a `\r`
/// just before the `\n` removed, and no empty line after a final `\n`.
pub open spec fn text_lines(s: Seq<char>) -> Seq<Seq<char>>
    decreases s.len(),
{
    if s.len() == 0 {
        Seq::empty()
    } else {
        match first_index(s, '\n') {
            Some(i) => {
                proof {
                    lemma_first_index_bound(s, '\n');
                }
                seq![strip_cr(s.take(i as int))] + text_lines(s.skip(i as int + 1))
            },
            None => seq![s],
        }
    }
}

/// `s` without its leading white space.
pub open spec fn trim_start(s: Seq<char>) -> Seq<char>
    decreases s.len(),
{
    if s.len() > 0 && is_white_space(s[0]) {
        trim_start(s.drop_first())
    } else {
        s
    }
}

/// The `k`-th piece of `s` split at `sep`, counting from zero.
pub open spec fn split_piece(s: Seq<char>, sep: char, k: nat) -> Option<Seq<char>>
    decreases s.len(),
{
    match first_index(s, sep) {
        None => if k == 0 { Some(s) } else { None },
        Some(i) => if k == 0 {
            Some(s.take(i as int))
        } else {
            proof {
                lemma_first_index_bound(s, sep);
            }
            split_piece(s.skip(i as int + 1), sep, (k - 1) as nat)
        },
    }
}

/// The key that marks a library folder entry, quotes included.
pub open spec fn path_key() -> Seq<char> {
    seq!['"', 'p', 'a', 't', 'h', '"']
}

/// Whether a line is a library folder entry.
pub open spec fn is_path_line(line: Seq<char>) -> bool {
    let t = trim_start(line);
    t.len() >= path_key().len() && t.take(path_key().len() as int) == path_key()
}

/// The folder that a line names, if it is an entry with enough quotes.
pub open spec fn line_folder(line: Seq<char>) -> Option<Seq<char>> {
    if is_path_line(line) {
        split_piece(line, '"', 3)
    } else {
        None
    }
}

/// The folders named by a sequence of lines, in order.
pub open spec fn folders_of_lines(lines: Seq<Seq<char>>) -> Seq<Seq<char>>
    decreases lines.len(),
{
    if lines.len() == 0 {
        Seq::empty()
    } else {
        match line_folder(lines[0]) {
            Some(f) => seq![f] + folders_of_lines(lines.drop_first()),
            None => folders_of_lines(lines.drop_first()),
        }
    }
}

/// The library folders that a `libraryfolders.vdf` text names, in order.
pub open spec fn library_folders(contents: Seq<char>) -> Seq<Seq<char>> {
    folders_of_lines(text_lines(contents))
}

/// Where `first_index` finds a character, it is there and nowhere before.
pub proof fn lemma_first_index_bound(s: Seq<char>, c: char)
    ensures
        match first_index(s, c) {
            Some(i) => i < s.len() && s[i as int] == c && forall|j: int| 0 <= j < i ==> s[j] != c,
            None => forall|j: int| 0 <= j < s.len() ==> s[j] != c,
        },
    decreases s.len(),
{
    if s.len() > 0 {
        lemma_first_index_bound(s.drop_first(), c);
        assert forall|j: int| 1 <= j < s.len() implies s[j] == s.drop_first()[j - 1] by {}
    }
}

proof fn lemma_first_index_at(s: Seq<char>, c: char, k: int)
    requires
        0 <= k < s.len(),
        s[k] == c,
        forall|j: int| 0 <= j < k ==> s[j] != c,
    ensures
        first_index(s, c) == Some(k as nat),
    decreases k,
{
    if k > 0 {
        lemma_first_index_at(s.drop_first(), c, k - 1);
    }
}

proof fn lemma_first_index_none(s: Seq<char>, c: char)
    requires
        forall|j: int| 0 <= j < s.len() ==> s[j] != c,
    ensures
        first_index(s, c) == None::<nat>,
    decreases s.len(),
{
    if s.len() > 0 {
        lemma_first_index_none(s.drop_first(), c);
    }
}

proof fn lemma_trim_start_at(s: Seq<char>, k: int)
    requires
        0 <= k <= s.len(),
        forall|j: int| 0 <= j < k ==> is_white_space(s[j]),
        k == s.len() || !is_white_space(s[k]),
    ensures
        trim_start(s) == s.skip(k),
    decreases k,
{
    if k == 0 {
        assert(s.skip(0) =~= s);
    } else {
        lemma_trim_start_at(s.drop_first(), k - 1);
        assert(s.drop_first().skip(k - 1) =~= s.skip(k));
    }
}

fn is_white_space_char(c: char) -> (b: bool)
    ensures
        b == is_white_space(c),
{
    ('\u{9}' <= c && c <= '\u{d}') || c == ' ' || c == '\u{85}' || c == '\u{a0}'
        || c == '\u{1680}' || ('\u{2000}' <= c && c <= '\u{200a}') || c == '\u{2028}'
        || c == '\u{2029}' || c == '\u{202f}' || c == '\u{205f}' || c == '\u{3000}'
}

/// Position of the first `c` at or after `from`.
fn find_char(cs: &Vec<char>, from: usize, c: char) -> (r: Option<usize>)
    requires
        from <= cs.len(),
    ensures
        match r {
            Some(i) => from <= i < cs.len() && cs@[i as int] == c
                && first_index(cs@.skip(from as int), c) == Some((i - from) as nat),
            None => first_index(cs@.skip(from as int), c) == None::<nat>,
        },
{
    let n = cs.len();
    let mut i = from;
    while i < n
        invariant
            from <= i <= n,
            n == cs.len(),
            forall|j: int| from <= j < i ==> cs@[j] != c,
        decreases n - i,
    {
        if cs[i] == c {
            proof {
                lemma_first_index_at(cs@.skip(from as int), c, (i - from) as int);
            }
            return Some(i);
        }
        i += 1;
    }
    proof {
        lemma_first_index_none(cs@.skip(from as int), c);
    }
    None
}

/// Whether `line` is a library folder entry.
fn path_line(line: &Vec<char>) -> (b: bool)
    ensures
        b == is_path_line(line@),
{
    let n = line.len();
    let mut k: usize = 0;
    while k < n && is_white_space_char(line[k])
        invariant
            k <= n,
            n == line.len(),
            forall|j: int| 0 <= j < k ==> is_white_space(line@[j]),
        decreases n - k,
    {
        k += 1;
    }
    proof {
        lemma_trim_start_at(line@, k as int);
    }
    let ghost t = line@.skip(k as int);
    if n - k < 6 {
        return false;
    }
    let r = line[k] == '"' && line[k + 1] == 'p' && line[k + 2] == 'a' && line[k + 3] == 't'
        && line[k + 4] == 'h' && line[k + 5] == '"';
    proof {
        if r {
            assert(t.take(6) =~= path_key());
        } else {
            if t.take(6) == path_key() {
                assert(t.take(6)[0] == '"');
                assert(t.take(6)[1] == 'p');
                assert(t.take(6)[2] == 'a');
                assert(t.take(6)[3] == 't');
                assert(t.take(6)[4] == 'h');
                assert(t.take(6)[5] == '"');
            }
        }
    }
    r
}

/// The chars `cs[from..to]`.
fn sub_chars(cs: &Vec<char>, from: usize, to: usize) -> (r: Vec<char>)
    requires
        from <= to <= cs.len(),
    ensures
        r@ == cs@.subrange(from as int, to as int),
{
    let mut r: Vec<char> = Vec::new();
    let mut i = from;
    while i < to
        invariant
            from <= i <= to <= cs.len(),
            r@ == cs@.subrange(from as int, i as int),
        decreases to - i,
    {
        r.push(cs[i]);
        i += 1;
    }
    r
}

/// The fourth piece of `line` split at double quotes.
fn fourth_quoted_piece(line: &Vec<char>) -> (r: Option<Vec<char>>)
    ensures
        match r {
            Some(v) => split_piece(line@, '"', 3) == Some(v@),
            None => split_piece(line@, '"', 3) == None::<Seq<char>>,
        },
{
    let n = line.len();
    let mut pos: usize = 0;
    let mut k: usize = 0;
    assert(line@.skip(0) =~= line@);
    while k < 3
        invariant
            k <= 3,
            pos <= n,
            n == line.len(),
            split_piece(line@, '"', 3) == split_piece(line@.skip(pos as int), '"', (3 - k) as nat),
        decreases 3 - k,
    {
        match find_char(line, pos, '"') {
            Some(i) => {
                assert(line@.skip(pos as int).skip(i - pos + 1) =~= line@.skip(i + 1));
                pos = i + 1;
                k += 1;
            },
            None => {
                return None;
            },
        }
    }
    match find_char(line, pos, '"') {
        Some(i) => {
            assert(line@.skip(pos as int).take(i - pos) =~= line@.subrange(pos as int, i as int));
            Some(sub_chars(line, pos, i))
        },
        None => {
            assert(line@.skip(pos as int) =~= line@.subrange(pos as int, n as int));
            Some(sub_chars(line, pos, n))
        },
    }
}

/// The line `cs[from..to]` without a trailing carriage return.
fn line_without_cr(cs: &Vec<char>, from: usize, to: usize) -> (r: Vec<char>)
    requires
        from <= to <= cs.len(),
    ensures
        r@ == strip_cr(cs@.subrange(from as int, to as int)),
{
    if to > from && cs[to - 1] == '\r' {
        let r = sub_chars(cs, from, to - 1);
        assert(r@ =~= cs@.subrange(from as int, to as int).drop_last());
        r
    } else {
        sub_chars(cs, from, to)
    }
}

/// The library folders named in the text of a `libraryfolders.vdf` file,
/// in the order in which they appear.
pub fn parse_library_folders(contents: &str) -> (res: Vec<String>)
    ensures
        res.deep_view() == library_folders(contents@),
{
    let cs = chars_of(contents);
    let n = cs.len();
    let mut res: Vec<String> = Vec::new();
    let mut start: usize = 0;
    assert(cs@.skip(0) =~= cs@);
    while start < n
        invariant
            start <= n,
            n == cs.len(),
            cs@ == contents@,
            library_folders(contents@) == res.deep_view() + folders_of_lines(text_lines(cs@.skip(start as int))),
        decreases n - start,
    {
        let ghost rest = cs@.skip(start as int);
        let found = find_char(&cs, start, '\n');
        let (line, next) = match found {
            Some(i) => (line_without_cr(&cs, start, i), i + 1),
            None => (sub_chars(&cs, start, n), n),
        };
        proof {
            let tail = cs@.skip(next as int);
            match found {
                Some(i) => {
                    assert(cs@.subrange(start as int, i as int) =~= rest.take(i - start));
                    assert(tail =~= rest.skip(i - start + 1));
                    assert(text_lines(rest) == seq![line@] + text_lines(tail));
                },
                None => {
                    assert(line@ =~= rest);
                    assert(tail =~= Seq::<char>::empty());
                    assert(text_lines(tail) =~= Seq::<Seq<char>>::empty());
                    assert(text_lines(rest) == seq![line@]);
                    assert(seq![line@] =~= seq![line@] + text_lines(tail));
                },
            }
            let ls = seq![line@] + text_lines(tail);
            assert(ls.drop_first() =~= text_lines(tail));
            assert(ls[0] == line@);
        }
        let ghost old_res = res.deep_view();
        if path_line(&line) {
            match fourth_quoted_piece(&line) {
                Some(piece) => {
                    res.push(string_from_chars(&piece));
                },
                None => {},
            }
        }
        proof {
            assert(res.deep_view() =~= old_res + match line_folder(line@) {
                Some(f) => seq![f],
                None => Seq::empty(),
            });
            let ls = seq![line@] + text_lines(cs@.skip(next as int));
            assert(ls.drop_first() =~= text_lines(cs@.skip(next as int)));
            match line_folder(line@) {
                Some(f) => {
                    assert(folders_of_lines(ls) == seq![f] + folders_of_lines(text_lines(cs@.skip(next as int))));
                },
                None => {
                    assert(folders_of_lines(ls) == folders_of_lines(text_lines(cs@.skip(next as int))));
                },
            }
        }
        start = next;
    }
    assert(cs@.skip(n as int) =~= Seq::<char>::empty());
    assert(res.deep_view() =~= res.deep_view() + Seq::<Seq<char>>::empty());
    res
}

proof fn lemma_first_index_prefix(a: Seq<char>, b: Seq<char>, c: char, k: int)
    requires
        0 <= k < a.len(),
        a[k] == c,
    ensures
        first_index(a + b, c) == first_index(a, c),
{
    lemma_first_index_bound(a, c);
    let i = first_index(a, c)->0 as int;
    assert((a + b)[i] == c);
    assert forall|j: int| 0 <= j < i implies (a + b)[j] != c by {
        assert((a + b)[j] == a[j]);
    }
    lemma_first_index_at(a + b, c, i);
}

/// The lines of two texts, the first ending in a newline, are the lines of
/// each in turn.
pub proof fn lemma_lines_of_concat(a: Seq<char>, b: Seq<char>)
    requires
        a.len() > 0,
        a.last() == '\n',
    ensures
        text_lines(a + b) == text_lines(a) + text_lines(b),
    decreases a.len(),
{
    lemma_first_index_prefix(a, b, '\n', a.len() - 1);
    lemma_first_index_bound(a, '\n');
    let k = first_index(a, '\n')->0 as int;
    let rest = a.skip(k + 1);
    assert((a + b).take(k) =~= a.take(k));
    assert((a + b).skip(k + 1) =~= rest + b);
    if k + 1 == a.len() {
        assert(rest =~= Seq::<char>::empty());
        assert(rest + b =~= b);
        assert(text_lines(rest) =~= Seq::<Seq<char>>::empty());
        assert(text_lines(a) =~= seq![strip_cr(a.take(k))]);
    } else {
        assert(rest.last() == a.last());
        lemma_lines_of_concat(rest, b);
    }
    assert(text_lines(a + b) =~= text_lines(a) + text_lines(b));
}

proof fn lemma_folders_of_concat(x: Seq<Seq<char>>, y: Seq<Seq<char>>)
    ensures
        folders_of_lines(x + y) == folders_of_lines(x) + folders_of_lines(y),
    decreases x.len(),
{
    if x.len() > 0 {
        assert((x + y)[0] == x[0]);
        assert((x + y).drop_first() =~= x.drop_first() + y);
        lemma_folders_of_concat(x.drop_first(), y);
        match line_folder(x[0]) {
            Some(f) => {
                assert(folders_of_lines(x + y) =~= folders_of_lines(x) + folders_of_lines(y));
            },
            None => {},
        }
    } else {
        assert(x + y =~= y);
        assert(folders_of_lines(x) =~= Seq::<Seq<char>>::empty());
        assert(folders_of_lines(x) + folders_of_lines(y) =~= folders_of_lines(y));
    }
}

/// Reading a text in two parts, the first ending in a newline, gives the
/// folders of the first part followed by those of the second: every entry
/// line counts, wherever it stands.
pub proof fn law_folders_of_concatenated_text(a: Seq<char>, b: Seq<char>)
    requires
        a.len() > 0,
        a.last() == '\n',
    ensures
        library_folders(a + b) == library_folders(a) + library_folders(b),
{
    lemma_lines_of_concat(a, b);
    lemma_folders_of_concat(text_lines(a), text_lines(b));
}

/// The line `"path" "<folder>"` followed by a newline.
pub open spec fn entry_line(folder: Seq<char>) -> Seq<char> {
    seq!['"', 'p', 'a', 't', 'h', '"', ' ', '"'] + folder + seq!['"', '\n']
}

/// A line `"path" "<folder>"` names exactly that folder, for every folder
/// without quotes or line breaks.
pub proof fn law_entry_line_names_its_folder(folder: Seq<char>)
    requires
        forall|j: int| 0 <= j < folder.len() ==> folder[j] != '"' && folder[j] != '\n',
    ensures
        library_folders(entry_line(folder)) == seq![folder],
{
    let t = entry_line(folder);
    let n = folder.len() as int;
    let line = t.take(t.len() - 1);
    assert forall|j: int| 0 <= j < t.len() - 1 implies t[j] != '\n' by {
        if 8 <= j < 8 + n {
            assert(t[j] == folder[j - 8]);
        }
    }
    lemma_first_index_at(t, '\n', t.len() - 1);
    assert(t.skip(t.len() as int) =~= Seq::<char>::empty());
    assert(text_lines(Seq::<char>::empty()) =~= Seq::<Seq<char>>::empty());
    assert(text_lines(t) == seq![strip_cr(line)] + text_lines(t.skip(t.len() as int)));
    assert(text_lines(t) =~= seq![strip_cr(line)]);
    assert(line.last() == '"');
    assert(strip_cr(line) == line);
    // the line is an entry
    assert(!is_white_space(line[0]));
    assert(trim_start(line) == line);
    assert(line.take(6) =~= path_key());
    // its fourth piece is the folder
    lemma_first_index_at(line, '"', 0);
    let l1 = line.skip(1);
    assert(l1[4] == '"');
    lemma_first_index_at(l1, '"', 4);
    let l2 = l1.skip(5);
    assert(l2 =~= line.skip(6));
    assert(l2[0] == ' ' && l2[1] == '"');
    lemma_first_index_at(l2, '"', 1);
    let l3 = l2.skip(2);
    assert(l3 =~= folder + seq!['"']);
    assert forall|j: int| 0 <= j < n implies l3[j] != '"' by {
        assert(l3[j] == folder[j]);
    }
    lemma_first_index_at(l3, '"', n);
    assert(l3.take(n) =~= folder);
    assert(split_piece(line, '"', 3) == split_piece(l1, '"', 2));
    assert(split_piece(l1, '"', 2) == split_piece(l2, '"', 1));
    assert(split_piece(l2, '"', 1) == split_piece(l3, '"', 0));
    assert(split_piece(line, '"', 3) == Some(folder));
    assert(line_folder(line) == Some(folder));
    assert(seq![line].drop_first() =~= Seq::<Seq<char>>::empty());
    assert(folders_of_lines(Seq::<Seq<char>>::empty()) =~= Seq::<Seq<char>>::empty());
    assert(seq![line][0] == line);
    assert(folders_of_lines(seq![line]) == seq![folder] + folders_of_lines(seq![line].drop_first()));
    assert(folders_of_lines(seq![line]) =~= seq![folder]);
}

/// One entry line per folder, in order.
pub open spec fn entry_text(folders: Seq<Seq<char>>) -> Seq<char>
    decreases folders.len(),
{
    if folders.len() == 0 {
        Seq::empty()
    } else {
        entry_text(folders.drop_last()) + entry_line(folders.last())
    }
}

/// A file listing any number of folders, one `"path" "<folder>"` line each,
/// is read back as exactly those folders, in order: none is dropped, none
/// added.
pub proof fn law_every_entry_is_read(folders: Seq<Seq<char>>)
    requires
        forall|i: int, j: int| 0 <= i < folders.len() && 0 <= j < folders[i].len()
            ==> folders[i][j] != '"' && folders[i][j] != '\n',
    ensures
        library_folders(entry_text(folders)) == folders,
    decreases folders.len(),
{
    if folders.len() == 0 {
        assert(text_lines(Seq::<char>::empty()) =~= Seq::<Seq<char>>::empty());
        assert(folders_of_lines(Seq::<Seq<char>>::empty()) =~= Seq::<Seq<char>>::empty());
        assert(folders =~= Seq::<Seq<char>>::empty());
    } else {
        let init = folders.drop_last();
        let last = folders.last();
        law_every_entry_is_read(init);
        assert forall|j: int| 0 <= j < last.len() implies last[j] != '"' && last[j] != '\n' by {
            assert(last == folders[folders.len() - 1]);
        }
        law_entry_line_names_its_folder(last);
        let a = entry_text(init);
        if a.len() == 0 {
            assert(a + entry_line(last) =~= entry_line(last));
            assert(init =~= Seq::<Seq<char>>::empty()) by {
                if init.len() > 0 {
                    assert(entry_text(init).len() >= entry_line(init.last()).len());
                }
            }
        } else {
            assert(a.last() == '\n') by {
                assert(init.len() > 0);
                let pre = entry_text(init.drop_last());
                assert(a == pre + entry_line(init.last()));
            }
            law_folders_of_concatenated_text(a, entry_line(last));
        }
        assert(folders =~= init.push(last));
        assert(library_folders(entry_text(folders)) =~= folders);
    }
}

} // verus!
