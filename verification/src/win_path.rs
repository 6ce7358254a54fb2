//! File names of Windows paths, as `Path::file_name` finds them on Windows.

use vstd::prelude::*;
use vstd::string::StrSliceExecFns;
use crate::text::{chars_of, terminated_len, terminated_text, utf16_lossy, decode_utf16_lossy, prefix_units};

verus! {

/// Whether `c` separates the components of a Windows path: `\` or `/`,
/// but only `\` in a verbatim (`\\?\`) path.
pub open spec fn is_separator(c: char, verbatim: bool) -> bool {
    c == '\\' || (!verbatim && c == '/')
}

/// Whether `c` is an ASCII letter.
pub open spec fn is_ascii_letter(c: char) -> bool {
    ('a' <= c && c <= 'z') || ('A' <= c && c <= 'Z')
}

/// Index of the first separator in `s`, or `s.len()` when there is none.
pub open spec fn first_separator(s: Seq<char>, verbatim: bool) -> int
    decreases s.len(),
{
    if s.len() == 0 || is_separator(s[0], verbatim) {
        0
    } else {
        1 + first_separator(s.drop_first(), verbatim)
    }
}

/// Index of the last separator in `s`, or `-1` when there is none.
pub open spec fn last_separator(s: Seq<char>, verbatim: bool) -> int
    decreases s.len(),
{
    if s.len() == 0 {
        -1
    } else if is_separator(s.last(), verbatim) {
        s.len() - 1
    } else {
        last_separator(s.drop_last(), verbatim)
    }
}

/// What `last_separator` finds: the last separator, or nothing.
pub proof fn lemma_last_separator(s: Seq<char>, verbatim: bool)
    ensures
        -1 <= last_separator(s, verbatim) < s.len(),
        last_separator(s, verbatim) >= 0 ==> is_separator(s[last_separator(s, verbatim)], verbatim),
        forall|j: int| last_separator(s, verbatim) < j < s.len() ==> !is_separator(s[j], verbatim),
    decreases s.len(),
{
    if s.len() > 0 && !is_separator(s.last(), verbatim) {
        lemma_last_separator(s.drop_last(), verbatim);
        assert forall|j: int| last_separator(s, verbatim) < j < s.len() implies !is_separator(
            s[j],
            verbatim,
        ) by {
            if j < s.len() - 1 {
                assert(s[j] == s.drop_last()[j]);
            }
        }
    }
}

/// Whether the path starts with the verbatim marker `\\?\`.
pub open spec fn is_verbatim(p: Seq<char>) -> bool {
    p.len() >= 4 && p[0] == '\\' && p[1] == '\\' && p[2] == '?' && p[3] == '\\'
}

/// The length of the prefix of a verbatim path: `\\?\UNC\server\share`,
/// `\\?\X:`, or `\\?\` and the component after it.
pub open spec fn verbatim_prefix_len(p: Seq<char>) -> int {
    let rest = p.skip(4);
    if rest.len() >= 4 && rest[0] == 'U' && rest[1] == 'N' && rest[2] == 'C' && rest[3] == '\\' {
        let names = rest.skip(4);
        let server = first_separator(names, true);
        let share = if server < names.len() {
            first_separator(names.skip(server + 1), true)
        } else {
            0
        };
        8 + server + if share > 0 {
            1 + share
        } else {
            0
        }
    } else if rest.len() >= 2 && is_ascii_letter(rest[0]) && rest[1] == ':' && (rest.len() == 2
        || rest[2] == '\\') {
        6
    } else {
        4 + first_separator(rest, true)
    }
}

/// The length of the prefix of a `\\server\share` path, 0 when the server
/// or the share name is missing.
pub open spec fn share_prefix_len(p: Seq<char>) -> int {
    let rest = p.skip(2);
    let server = first_separator(rest, false);
    if 0 < server < rest.len() {
        let share = first_separator(rest.skip(server + 1), false);
        if share > 0 {
            2 + server + 1 + share
        } else {
            0
        }
    } else {
        0
    }
}

/// The length of the prefix of a Windows path: a verbatim prefix, a device
/// `\\.\name`, a share `\\server\share`, a drive `X:`; 0 when there is none.
pub open spec fn prefix_len(p: Seq<char>) -> int {
    if is_verbatim(p) {
        verbatim_prefix_len(p)
    } else if p.len() >= 4 && is_separator(p[0], false) && is_separator(p[1], false) && p[2] == '.'
        && is_separator(p[3], false) {
        4 + first_separator(p.skip(4), false)
    } else if p.len() >= 2 && is_separator(p[0], false) && is_separator(p[1], false) {
        share_prefix_len(p)
    } else if p.len() >= 2 && is_ascii_letter(p[0]) && p[1] == ':' {
        2
    } else {
        0
    }
}

/// The last named component of a path without its prefix: trailing
/// separators are passed over; a last component `..`, or `.` in a verbatim
/// path, names nothing; elsewhere a `.` component is passed over.
pub open spec fn last_name(p: Seq<char>, verbatim: bool) -> Option<Seq<char>>
    decreases p.len(),
{
    if p.len() == 0 {
        None
    } else if is_separator(p.last(), verbatim) {
        last_name(p.drop_last(), verbatim)
    } else {
        let start = last_separator(p, verbatim) + 1;
        let comp = p.subrange(start, p.len() as int);
        if comp == seq!['.'] {
            if verbatim {
                None
            } else {
                proof {
                    lemma_last_separator(p.drop_last(), verbatim);
                }
                last_name(p.take(start), verbatim)
            }
        } else if comp == seq!['.', '.'] {
            None
        } else {
            Some(comp)
        }
    }
}

/// The file name of a Windows path: its last named component after the
/// prefix.
pub open spec fn path_file_name_of(p: Seq<char>) -> Option<Seq<char>> {
    last_name(p.skip(prefix_len(p)), is_verbatim(p))
}

fn is_sep(c: char, verbatim: bool) -> (b: bool)
    ensures
        b == is_separator(c, verbatim),
{
    c == '\\' || (!verbatim && c == '/')
}

/// Absolute index of the first separator of `v` at or after `from`, or `v.len()`.
fn first_separator_from(v: &Vec<char>, from: usize, verbatim: bool) -> (r: usize)
    requires
        from <= v@.len(),
    ensures
        r == from + first_separator(v@.skip(from as int), verbatim),
        from <= r <= v@.len(),
{
    let n = v.len();
    let mut i: usize = from;
    while i < n
        invariant
            n == v@.len(),
            from <= i <= n,
            first_separator(v@.skip(from as int), verbatim) == (i - from) + first_separator(
                v@.skip(i as int),
                verbatim,
            ),
        decreases n - i,
    {
        if is_sep(v[i], verbatim) {
            return i;
        }
        proof {
            assert(v@.skip(i as int).drop_first() == v@.skip(i + 1));
        }
        i = i + 1;
    }
    proof {
        assert(v@.skip(n as int).len() == 0);
    }
    n
}

fn is_letter(c: char) -> (b: bool)
    ensures
        b == is_ascii_letter(c),
{
    ('a' <= c && c <= 'z') || ('A' <= c && c <= 'Z')
}

fn verbatim_prefix_length(v: &Vec<char>) -> (k: usize)
    requires
        is_verbatim(v@),
    ensures
        k == verbatim_prefix_len(v@),
        k <= v@.len(),
{
    let n = v.len();
    let ghost rest = v@.skip(4);
    if n >= 8 && v[4] == 'U' && v[5] == 'N' && v[6] == 'C' && v[7] == '\\' {
        let server_end = first_separator_from(v, 8, true);
        proof {
            assert(rest.skip(4) =~= v@.skip(8));
        }
        if server_end < n {
            let share_end = first_separator_from(v, server_end + 1, true);
            proof {
                assert(v@.skip(8).skip(server_end - 8 + 1) =~= v@.skip(server_end + 1));
            }
            if share_end > server_end + 1 {
                share_end
            } else {
                server_end
            }
        } else {
            server_end
        }
    } else if n >= 6 && is_letter(v[4]) && v[5] == ':' && (n == 6 || v[6] == '\\') {
        6
    } else {
        first_separator_from(v, 4, true)
    }
}

fn share_prefix_length(v: &Vec<char>) -> (k: usize)
    requires
        v@.len() >= 2,
    ensures
        k == share_prefix_len(v@),
        k <= v@.len(),
{
    let n = v.len();
    let server_end = first_separator_from(v, 2, false);
    if server_end > 2 && server_end < n {
        let share_end = first_separator_from(v, server_end + 1, false);
        proof {
            assert(v@.skip(2).skip(server_end - 2 + 1) =~= v@.skip(server_end + 1));
        }
        if share_end > server_end + 1 {
            share_end
        } else {
            0
        }
    } else {
        0
    }
}

/// The length of the prefix of the path `v` (see `prefix_len`).
fn prefix_length(v: &Vec<char>) -> (k: usize)
    ensures
        k == prefix_len(v@),
        k <= v@.len(),
{
    let n = v.len();
    if n >= 4 && v[0] == '\\' && v[1] == '\\' && v[2] == '?' && v[3] == '\\' {
        verbatim_prefix_length(v)
    } else if n >= 4 && is_sep(v[0], false) && is_sep(v[1], false) && v[2] == '.' && is_sep(
        v[3],
        false,
    ) {
        first_separator_from(v, 4, false)
    } else if n >= 2 && is_sep(v[0], false) && is_sep(v[1], false) {
        share_prefix_length(v)
    } else if n >= 2 && is_letter(v[0]) && v[1] == ':' {
        2
    } else {
        0
    }
}

/// Absolute index of the last separator of `v` in `[k, end)`, if any.
fn last_separator_in(v: &Vec<char>, k: usize, end: usize, verbatim: bool) -> (r: Option<usize>)
    requires
        k <= end <= v@.len(),
    ensures
        match r {
            Some(i) => k <= i < end && i - k == last_separator(
                v@.subrange(k as int, end as int),
                verbatim,
            ),
            None => last_separator(v@.subrange(k as int, end as int), verbatim) == -1,
        },
{
    let mut i: usize = end;
    while i > k
        invariant
            k <= i <= end <= v@.len(),
            last_separator(v@.subrange(k as int, end as int), verbatim) == last_separator(
                v@.subrange(k as int, i as int),
                verbatim,
            ),
        decreases i - k,
    {
        if is_sep(v[i - 1], verbatim) {
            proof {
                assert(v@.subrange(k as int, i as int).last() == v@[i - 1]);
            }
            return Some(i - 1);
        }
        proof {
            assert(v@.subrange(k as int, i as int).drop_last() == v@.subrange(k as int, i - 1));
        }
        i = i - 1;
    }
    None
}

/// The bounds `[a, b)` of the last named component of `v` after index `k`.
fn last_name_bounds(v: &Vec<char>, k: usize, verbatim: bool) -> (r: Option<(usize, usize)>)
    requires
        k <= v@.len(),
    ensures
        match r {
            Some((a, b)) => k <= a <= b <= v@.len() && last_name(
                v@.subrange(k as int, v@.len() as int),
                verbatim,
            ) == Some(v@.subrange(a as int, b as int)),
            None => last_name(v@.subrange(k as int, v@.len() as int), verbatim) is None,
        },
{
    let n = v.len();
    let mut end: usize = n;
    loop
        invariant
            n == v@.len(),
            k <= end <= n,
            last_name(v@.subrange(k as int, n as int), verbatim) == last_name(
                v@.subrange(k as int, end as int),
                verbatim,
            ),
        decreases end - k,
    {
        let ghost p = v@.subrange(k as int, end as int);
        if end == k {
            return None;
        }
        if is_sep(v[end - 1], verbatim) {
            proof {
                assert(p.last() == v@[end - 1]);
                assert(p.drop_last() == v@.subrange(k as int, end - 1));
            }
            end = end - 1;
        } else {
            proof {
                assert(p.last() == v@[end - 1]);
                lemma_last_separator(p, verbatim);
                lemma_last_separator(p.drop_last(), verbatim);
            }
            let start = match last_separator_in(v, k, end, verbatim) {
                Some(i) => i + 1,
                None => k,
            };
            proof {
                assert(start - k == last_separator(p, verbatim) + 1);
                assert(p.subrange(start - k, p.len() as int) =~= v@.subrange(
                    start as int,
                    end as int,
                ));
                assert(start < end);
            }
            if end - start == 1 && v[start] == '.' {
                proof {
                    assert(v@.subrange(start as int, end as int) =~= seq!['.']);
                    assert(p.take(start - k) =~= v@.subrange(k as int, start as int));
                }
                if verbatim {
                    return None;
                }
                end = start;
            } else if end - start == 2 && v[start] == '.' && v[start + 1] == '.' {
                proof {
                    assert(v@.subrange(start as int, end as int) =~= seq!['.', '.']);
                }
                return None;
            } else {
                proof {
                    if v@.subrange(start as int, end as int) == seq!['.'] {
                        assert(v@.subrange(start as int, end as int)[0] == v@[start as int]);
                    }
                    if v@.subrange(start as int, end as int) == seq!['.', '.'] {
                        assert(v@.subrange(start as int, end as int)[0] == v@[start as int]);
                        assert(v@.subrange(start as int, end as int)[1] == v@[start + 1]);
                    }
                }
                return Some((start, end));
            }
        }
    }
}

/// The file name of the Windows path `path` (see `path_file_name_of`).
pub fn path_file_name(path: &str) -> (r: Option<String>)
    ensures
        match r {
            Some(name) => path_file_name_of(path@) == Some(name@),
            None => path_file_name_of(path@) is None,
        },
{
    let v = chars_of(path);
    let k = prefix_length(&v);
    let verbatim = v.len() >= 4 && v[0] == '\\' && v[1] == '\\' && v[2] == '?' && v[3] == '\\';
    proof {
        assert(v@.subrange(k as int, v@.len() as int) =~= path@.skip(k as int));
    }
    match last_name_bounds(&v, k, verbatim) {
        Some((a, b)) => Some(path.substring_char(a, b).to_owned()),
        None => None,
    }
}

/// Whether `s` holds neither `\` nor `/`.
pub open spec fn lacks_separators(s: Seq<char>) -> bool {
    forall|i: int| 0 <= i < s.len() ==> s[i] != '\\' && s[i] != '/'
}

/// The last separator of `a + b`, where `a` ends in a separator and `b`
/// holds none, is the one that ends `a`.
proof fn lemma_last_separator_of_suffix(a: Seq<char>, b: Seq<char>, verbatim: bool)
    requires
        a.len() > 0,
        is_separator(a.last(), verbatim),
        lacks_separators(b),
    ensures
        last_separator(a + b, verbatim) == a.len() - 1,
    decreases b.len(),
{
    if b.len() == 0 {
        assert(a + b =~= a);
    } else {
        assert((a + b).drop_last() =~= a + b.drop_last());
        assert((a + b).last() == b.last());
        lemma_last_separator_of_suffix(a, b.drop_last(), verbatim);
    }
}

/// The name after the last `\` of a path is its file name: for a path that
/// does not start with a separator (a relative path or one with a drive),
/// a `\`, and a name with no `\` or `/` that is not `.` or `..`, the file
/// name is that name, whatever other characters (spaces, dots, colons) the
/// name or the rest of the path hold.
pub proof fn law_file_name_is_last_component(p: Seq<char>, n: Seq<char>)
    requires
        p.len() == 0 || (p[0] != '\\' && p[0] != '/'),
        n.len() > 0,
        lacks_separators(n),
        n != seq!['.'],
        n != seq!['.', '.'],
    ensures
        path_file_name_of(p + seq!['\\'] + n) == Some(n),
{
    let q = p + seq!['\\'] + n;
    if p.len() == 0 {
        assert(q[0] == '\\');
        assert(q[1] == n[0]);
    } else {
        assert(q[0] == p[0]);
        if p.len() == 1 {
            assert(q[1] == '\\');
        } else {
            assert(q[1] == p[1]);
        }
    }
    let k = prefix_len(q);
    assert(k == 0 || (k == 2 && p.len() >= 2));
    assert(!is_verbatim(q));
    let body = q.skip(k);
    let a = p.skip(k) + seq!['\\'];
    assert(body =~= a + n);
    lemma_last_separator_of_suffix(a, n, false);
    assert(body.last() == n.last());
    assert(body.subrange(a.len() as int, body.len() as int) =~= n);
}

/// The same with `/` between the directory and the name.
pub proof fn law_file_name_after_slash(p: Seq<char>, n: Seq<char>)
    requires
        p.len() == 0 || (p[0] != '\\' && p[0] != '/'),
        n.len() > 0,
        lacks_separators(n),
        n != seq!['.'],
        n != seq!['.', '.'],
    ensures
        path_file_name_of(p + seq!['/'] + n) == Some(n),
{
    let q = p + seq!['/'] + n;
    if p.len() == 0 {
        assert(q[0] == '/');
        assert(q[1] == n[0]);
    } else {
        assert(q[0] == p[0]);
        if p.len() == 1 {
            assert(q[1] == '/');
        } else {
            assert(q[1] == p[1]);
        }
    }
    let k = prefix_len(q);
    assert(k == 0 || (k == 2 && p.len() >= 2));
    assert(!is_verbatim(q));
    let body = q.skip(k);
    let a = p.skip(k) + seq!['/'];
    assert(body =~= a + n);
    lemma_last_separator_of_suffix(a, n, false);
    assert(body.last() == n.last());
    assert(body.subrange(a.len() as int, body.len() as int) =~= n);
}

/// A path that ends in `..` names no file.
pub proof fn law_parent_names_no_file(p: Seq<char>)
    requires
        p.len() == 0 || (p[0] != '\\' && p[0] != '/'),
    ensures
        path_file_name_of(p + seq!['\\', '.', '.']) is None,
{
    let q = p + seq!['\\', '.', '.'];
    if p.len() == 0 {
        assert(q[0] == '\\');
        assert(q[1] == '.');
    } else {
        assert(q[0] == p[0]);
        if p.len() == 1 {
            assert(q[1] == '\\');
        } else {
            assert(q[1] == p[1]);
        }
    }
    let k = prefix_len(q);
    assert(k == 0 || (k == 2 && p.len() >= 2));
    let body = q.skip(k);
    let a = p.skip(k) + seq!['\\'];
    let n = seq!['.', '.'];
    assert(body =~= a + n);
    lemma_last_separator_of_suffix(a, n, false);
    assert(body.last() == '.');
    assert(body.subrange(a.len() as int, body.len() as int) =~= n);
}

/// The file name of the program a shortcut points to, given the
/// zero-terminated UTF-16 buffer its target path was read into: nothing
/// when the buffer holds no text or the path names no file.
pub fn link_target_name(buf: &[u16]) -> (r: Option<String>)
    ensures
        match r {
            Some(name) => terminated_len(buf@) > 0 && path_file_name_of(
                utf16_lossy(buf@.take(terminated_len(buf@))),
            ) == Some(name@),
            None => terminated_len(buf@) == 0 || path_file_name_of(
                utf16_lossy(buf@.take(terminated_len(buf@))),
            ) is None,
        },
{
    match terminated_text(buf) {
        Some(target) => path_file_name(target.as_str()),
        None => None,
    }
}

/// The executable of a process, given the UTF-16 buffer its image path was
/// read into and the number of units the system wrote: the file name of
/// that path, if it names one, and the path itself.
pub fn process_image(buf: &[u16], len: usize) -> (r: (Option<String>, String))
    requires
        len <= buf@.len(),
    ensures
        r.1@ == utf16_lossy(buf@.take(len as int)),
        match r.0 {
            Some(name) => path_file_name_of(r.1@) == Some(name@),
            None => path_file_name_of(r.1@) is None,
        },
{
    let units = prefix_units(buf, len);
    let path = decode_utf16_lossy(units.as_slice());
    let name = path_file_name(path.as_str());
    (name, path)
}

} // verus!
