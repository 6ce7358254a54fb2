//! Character-level string helpers used by the rest of the library.

use vstd::prelude::*;
use vstd::string::StrSliceExecFns;

verus! {

/// The characters of `s`, in order.
pub fn chars_of(s: &str) -> (v: Vec<char>)
    ensures
        v@ == s@,
{
    let n = s.unicode_len();
    let mut v: Vec<char> = Vec::new();
    let mut i: usize = 0;
    while i < n
        invariant
            n == s@.len(),
            i <= n,
            v@ == s@.take(i as int),
        decreases n - i,
    {
        let c = s.get_char(i);
        v.push(c);
        proof {
            assert(s@.take(i + 1) == s@.take(i as int).push(c));
        }
        i = i + 1;
    }
    proof {
        assert(s@.take(n as int) == s@);
    }
    v
}

/// Index of the last `'.'` in `s`, or `-1` when there is none.
pub open spec fn last_dot(s: Seq<char>) -> int
    decreases s.len(),
{
    if s.len() == 0 {
        -1
    } else if s.last() == '.' {
        s.len() - 1
    } else {
        last_dot(s.drop_last())
    }
}

/// What `last_dot` finds: either no dot at all, or a dot after which there is none.
pub proof fn lemma_last_dot(s: Seq<char>)
    ensures
        -1 <= last_dot(s) < s.len(),
        last_dot(s) >= 0 ==> s[last_dot(s)] == '.',
        forall|j: int| last_dot(s) < j < s.len() ==> s[j] != '.',
    decreases s.len(),
{
    if s.len() > 0 && s.last() != '.' {
        lemma_last_dot(s.drop_last());
        assert forall|j: int| last_dot(s) < j < s.len() implies s[j] != '.' by {
            if j < s.len() - 1 {
                assert(s[j] == s.drop_last()[j]);
            }
        }
    }
}

/// Whether `s` is the parent-directory name `..`.
pub open spec fn is_parent_name(s: Seq<char>) -> bool {
    s == seq!['.', '.']
}

/// The extension of a file name, as a path's `extension()` gives it: the
/// text after the last dot, where that dot is not the first character, and
/// nothing for the name `..`.
pub open spec fn extension_of(name: Seq<char>) -> Option<Seq<char>> {
    if is_parent_name(name) || last_dot(name) <= 0 {
        None
    } else {
        Some(name.subrange(last_dot(name) + 1, name.len() as int))
    }
}

/// The stem of a file name, as a path's `file_stem()` gives it: the text
/// before the last dot, where that dot is not the first character, else the
/// whole name; nothing for the empty name, `.` and `..`.
pub open spec fn file_stem_of(name: Seq<char>) -> Option<Seq<char>> {
    if name.len() == 0 || name == seq!['.'] || is_parent_name(name) {
        None
    } else if last_dot(name) <= 0 {
        Some(name)
    } else {
        Some(name.take(last_dot(name)))
    }
}

/// Finds the index of the last dot in `v`.
fn find_last_dot(v: &Vec<char>) -> (r: Option<usize>)
    ensures
        match r {
            Some(i) => i == last_dot(v@),
            None => last_dot(v@) == -1,
        },
{
    let mut i: usize = v.len();
    proof {
        assert(v@.take(i as int) == v@);
    }
    while i > 0
        invariant
            i <= v.len(),
            last_dot(v@) == last_dot(v@.take(i as int)),
        decreases i,
    {
        if v[i - 1] == '.' {
            proof {
                assert(v@.take(i as int).last() == '.');
            }
            return Some(i - 1);
        }
        proof {
            assert(v@.take(i as int).drop_last() == v@.take(i - 1));
        }
        i = i - 1;
    }
    None
}

/// Whether the characters of `v` spell `..`.
fn is_parent_chars(v: &Vec<char>) -> (b: bool)
    ensures
        b == is_parent_name(v@),
{
    let b = v.len() == 2 && v[0] == '.' && v[1] == '.';
    proof {
        if b {
            assert(v@ =~= seq!['.', '.']);
        }
    }
    b
}

/// The extension of the file name `name` (see `extension_of`).
pub fn file_extension(name: &str) -> (r: Option<String>)
    ensures
        match r {
            Some(e) => extension_of(name@) == Some(e@),
            None => extension_of(name@) is None,
        },
{
    let v = chars_of(name);
    if is_parent_chars(&v) {
        return None;
    }
    match find_last_dot(&v) {
        Some(p) => {
            if p == 0 {
                None
            } else {
                proof {
                    lemma_last_dot(v@);
                    assert(p < v.len());
                }
                Some(name.substring_char(p + 1, v.len()).to_owned())
            }
        },
        None => None,
    }
}

/// The stem of the file name `name` (see `file_stem_of`).
pub fn file_stem(name: &str) -> (r: Option<String>)
    ensures
        match r {
            Some(e) => file_stem_of(name@) == Some(e@),
            None => file_stem_of(name@) is None,
        },
{
    let v = chars_of(name);
    if v.len() == 0 || (v.len() == 1 && v[0] == '.') {
        proof {
            if v.len() == 1 {
                assert(name@ =~= seq!['.']);
            }
        }
        return None;
    }
    proof {
        if name@ == seq!['.'] {
            assert(name@.len() == 1);
        }
    }
    if is_parent_chars(&v) {
        return None;
    }
    match find_last_dot(&v) {
        Some(p) => {
            if p == 0 {
                Some(name.to_owned())
            } else {
                proof {
                    lemma_last_dot(v@);
                    assert(p < v.len());
                }
                Some(name.substring_char(0, p).to_owned())
            }
        },
        None => Some(name.to_owned()),
    }
}


/// Whether `needle` occurs in `hay` starting at index `i`.
pub open spec fn occurs_at(hay: Seq<char>, needle: Seq<char>, i: int) -> bool {
    &&& 0 <= i
    &&& i + needle.len() <= hay.len()
    &&& hay.subrange(i, i + needle.len()) == needle
}

/// Whether `needle` occurs somewhere in `hay`, as `str::contains` decides it.
pub open spec fn contains_seq(hay: Seq<char>, needle: Seq<char>) -> bool {
    exists|i: int| occurs_at(hay, needle, i)
}

fn matches_at(hay: &Vec<char>, needle: &Vec<char>, i: usize) -> (b: bool)
    requires
        i + needle@.len() <= hay@.len(),
    ensures
        b == occurs_at(hay@, needle@, i as int),
{
    let n = needle.len();
    let hl = hay.len();
    let mut k: usize = 0;
    while k < n
        invariant
            n == needle@.len(),
            hl == hay@.len(),
            i + n <= hl,
            k <= n,
            forall|j: int| 0 <= j < k ==> hay@[i + j] == needle@[j],
        decreases n - k,
    {
        if hay[i + k] != needle[k] {
            proof {
                assert(hay@.subrange(i as int, i + n)[k as int] != needle@[k as int]);
            }
            return false;
        }
        k = k + 1;
    }
    proof {
        assert(hay@.subrange(i as int, i + n) =~= needle@);
    }
    true
}

/// Whether `needle` occurs in `hay` (character sequences).
pub fn contains_chars(hay: &Vec<char>, needle: &Vec<char>) -> (b: bool)
    ensures
        b == contains_seq(hay@, needle@),
{
    if needle.len() > hay.len() {
        return false;
    }
    let last = hay.len() - needle.len();
    let mut i: usize = 0;
    while i <= last
        invariant
            last + needle@.len() == hay@.len(),
            i <= last,
            forall|j: int| 0 <= j < i ==> !occurs_at(hay@, needle@, j),
        ensures
            forall|j: int| 0 <= j <= last ==> !occurs_at(hay@, needle@, j),
        decreases last - i,
    {
        if matches_at(hay, needle, i) {
            return true;
        }
        if i == last {
            break;
        }
        i = i + 1;
    }
    false
}

/// Whether `needle` occurs in `hay`.
pub fn str_contains(hay: &str, needle: &str) -> (b: bool)
    ensures
        b == contains_seq(hay@, needle@),
{
    let h = chars_of(hay);
    let n = chars_of(needle);
    contains_chars(&h, &n)
}

/// The code of `c` after ASCII lower-casing: `A`..=`Z` become `a`..=`z`,
/// every other character is left as it is.
pub open spec fn ascii_fold(c: char) -> u32 {
    if 'A' <= c && c <= 'Z' {
        (c as u32 + 32) as u32
    } else {
        c as u32
    }
}

/// Whether two strings are equal ignoring ASCII case, as
/// `str::eq_ignore_ascii_case` decides it.
pub open spec fn eq_ignore_ascii_case_seq(a: Seq<char>, b: Seq<char>) -> bool {
    &&& a.len() == b.len()
    &&& forall|i: int| 0 <= i < a.len() ==> ascii_fold(a[i]) == ascii_fold(b[i])
}

fn fold_char(c: char) -> (r: u32)
    ensures
        r == ascii_fold(c),
{
    if 'A' <= c && c <= 'Z' {
        c as u32 + 32
    } else {
        c as u32
    }
}

/// Whether `a` and `b` are equal ignoring ASCII case.
pub fn eq_ignore_ascii_case(a: &str, b: &str) -> (r: bool)
    ensures
        r == eq_ignore_ascii_case_seq(a@, b@),
{
    let va = chars_of(a);
    let vb = chars_of(b);
    if va.len() != vb.len() {
        return false;
    }
    let n = va.len();
    let mut i: usize = 0;
    while i < n
        invariant
            va@ == a@,
            vb@ == b@,
            n == va@.len(),
            n == vb@.len(),
            i <= n,
            forall|j: int| 0 <= j < i ==> ascii_fold(va@[j]) == ascii_fold(vb@[j]),
        decreases n - i,
    {
        if fold_char(va[i]) != fold_char(vb[i]) {
            proof {
                assert(ascii_fold(a@[i as int]) != ascii_fold(b@[i as int]));
            }
            return false;
        }
        i = i + 1;
    }
    true
}

/// Whether `c` has the Unicode `White_Space` property, which is what
/// `char::is_whitespace` tests.
pub open spec fn is_white_space(c: char) -> bool {
    let u = c as u32;
    ||| 0x09 <= u <= 0x0D
    ||| u == 0x20
    ||| u == 0x85
    ||| u == 0xA0
    ||| u == 0x1680
    ||| 0x2000 <= u <= 0x200A
    ||| u == 0x2028
    ||| u == 0x2029
    ||| u == 0x202F
    ||| u == 0x205F
    ||| u == 0x3000
}

/// Whether `c` is white space (see `is_white_space`).
pub fn char_is_white_space(c: char) -> (b: bool)
    ensures
        b == is_white_space(c),
{
    let u = c as u32;
    (0x09 <= u && u <= 0x0D) || u == 0x20 || u == 0x85 || u == 0xA0 || u == 0x1680 || (0x2000
        <= u && u <= 0x200A) || u == 0x2028 || u == 0x2029 || u == 0x202F || u == 0x205F || u
        == 0x3000
}

/// `s` without its leading white space.
pub open spec fn trim_start_seq(s: Seq<char>) -> Seq<char>
    decreases s.len(),
{
    if s.len() > 0 && is_white_space(s[0]) {
        trim_start_seq(s.drop_first())
    } else {
        s
    }
}

/// `s` without its trailing white space.
pub open spec fn trim_end_seq(s: Seq<char>) -> Seq<char>
    decreases s.len(),
{
    if s.len() > 0 && is_white_space(s.last()) {
        trim_end_seq(s.drop_last())
    } else {
        s
    }
}

/// `s` without leading and trailing white space, as `str::trim` gives it.
pub open spec fn trim_seq(s: Seq<char>) -> Seq<char> {
    trim_end_seq(trim_start_seq(s))
}

fn leading_space_end(v: &Vec<char>) -> (a: usize)
    ensures
        a <= v@.len(),
        trim_start_seq(v@) == v@.subrange(a as int, v@.len() as int),
{
    let n = v.len();
    let mut a: usize = 0;
    proof {
        assert(v@.subrange(0, n as int) == v@);
    }
    while a < n && char_is_white_space(v[a])
        invariant
            n == v@.len(),
            a <= n,
            trim_start_seq(v@) == trim_start_seq(v@.subrange(a as int, n as int)),
        decreases n - a,
    {
        proof {
            assert(v@.subrange(a as int, n as int).drop_first() == v@.subrange(a + 1, n as int));
        }
        a = a + 1;
    }
    a
}

fn trailing_space_start(v: &Vec<char>, a: usize) -> (b: usize)
    requires
        a <= v@.len(),
    ensures
        a <= b <= v@.len(),
        trim_end_seq(v@.subrange(a as int, v@.len() as int)) == v@.subrange(a as int, b as int),
{
    let n = v.len();
    let mut b: usize = n;
    while b > a && char_is_white_space(v[b - 1])
        invariant
            n == v@.len(),
            a <= b <= n,
            trim_end_seq(v@.subrange(a as int, n as int)) == trim_end_seq(
                v@.subrange(a as int, b as int),
            ),
        decreases b - a,
    {
        proof {
            assert(v@.subrange(a as int, b as int).drop_last() == v@.subrange(a as int, b - 1));
        }
        b = b - 1;
    }
    b
}

/// `s` without leading and trailing white space.
pub fn trim(s: &str) -> (r: String)
    ensures
        r@ == trim_seq(s@),
{
    let v = chars_of(s);
    let a = leading_space_end(&v);
    let b = trailing_space_start(&v, a);
    s.substring_char(a, b).to_owned()
}

/// The lowercase form of a string, as `str::to_lowercase` gives it (full
/// Unicode case mapping).
pub uninterp spec fn lowercase(s: Seq<char>) -> Seq<char>;

/// Whether every character of `s` is ASCII.
pub open spec fn is_ascii_seq(s: Seq<char>) -> bool {
    forall|i: int| 0 <= i < s.len() ==> (s[i] as u32) < 128
}

/// The ASCII lowercase of `c`: `A`..=`Z` become `a`..=`z`, every other
/// character is left as it is.
pub open spec fn ascii_lower(c: char) -> char {
    if 'A' <= c && c <= 'Z' {
        (c as int + 32) as char
    } else {
        c
    }
}

/// Calls `str::to_lowercase`; its result is `lowercase` of the argument.
/// For an ASCII string, the Unicode lowercase mapping turns `A`..=`Z` into
/// `a`..=`z` and leaves every other character as it is.
#[verifier::external_body]
pub(crate) fn to_lowercase(s: &str) -> (r: String)
    ensures
        r@ == lowercase(s@),
        is_ascii_seq(s@) ==> r@ == s@.map_values(|c: char| ascii_lower(c)),
{
    s.to_lowercase()
}

/// Whether `u` is a UTF-16 high (leading) surrogate.
pub open spec fn is_high_surrogate(u: u16) -> bool {
    0xD800 <= u <= 0xDBFF
}

/// Whether `u` is a UTF-16 low (trailing) surrogate.
pub open spec fn is_low_surrogate(u: u16) -> bool {
    0xDC00 <= u <= 0xDFFF
}

/// The text decoded from UTF-16 code units, with every unpaired surrogate
/// replaced by U+FFFD: a high surrogate followed by a low one is one
/// character, any other surrogate is U+FFFD, any other unit is the
/// character of that code.
pub open spec fn utf16_lossy(units: Seq<u16>) -> Seq<char>
    decreases units.len(),
{
    if units.len() == 0 {
        Seq::empty()
    } else if units.len() >= 2 && is_high_surrogate(units[0]) && is_low_surrogate(units[1]) {
        seq![
            (0x10000 + (units[0] - 0xD800) * 0x400 + (units[1] - 0xDC00)) as char,
        ] + utf16_lossy(units.skip(2))
    } else if is_high_surrogate(units[0]) || is_low_surrogate(units[0]) {
        seq!['\u{FFFD}'] + utf16_lossy(units.skip(1))
    } else {
        seq![units[0] as char] + utf16_lossy(units.skip(1))
    }
}

/// Calls `String::from_utf16_lossy`, which decodes UTF-16 and replaces
/// unpaired surrogates by U+FFFD; its result is `utf16_lossy` of the argument.
#[verifier::external_body]
pub(crate) fn decode_utf16_lossy(units: &[u16]) -> (r: String)
    ensures
        r@ == utf16_lossy(units@),
{
    String::from_utf16_lossy(units)
}

/// Whether `k` is the index of the first zero unit of `s`.
pub open spec fn is_first_nul(s: Seq<u16>, k: int) -> bool {
    &&& 0 <= k < s.len()
    &&& s[k] == 0
    &&& forall|j: int| 0 <= j < k ==> s[j] != 0
}

/// The length of the text in a zero-terminated UTF-16 buffer: the index of
/// its first zero unit, and 0 when it holds no zero unit at all.
pub open spec fn terminated_len(s: Seq<u16>) -> int {
    if exists|k: int| is_first_nul(s, k) {
        choose|k: int| is_first_nul(s, k)
    } else {
        0
    }
}

/// The first zero unit of a sequence is unique.
pub proof fn lemma_first_nul_unique(s: Seq<u16>, k: int)
    requires
        is_first_nul(s, k),
    ensures
        terminated_len(s) == k,
{
    let c = choose|c: int| is_first_nul(s, c);
    assert(is_first_nul(s, c));
    if c < k {
        assert(s[c] != 0);
    }
    if k < c {
        assert(s[k] != 0);
    }
}

/// The length of the text in the zero-terminated buffer `buf` (see `terminated_len`).
pub fn nul_terminated_len(buf: &[u16]) -> (r: usize)
    ensures
        r == terminated_len(buf@),
        r <= buf@.len(),
{
    let n = buf.len();
    let mut i: usize = 0;
    while i < n
        invariant
            n == buf@.len(),
            i <= n,
            forall|j: int| 0 <= j < i ==> buf@[j] != 0,
        decreases n - i,
    {
        if buf[i] == 0 {
            proof {
                lemma_first_nul_unique(buf@, i as int);
            }
            return i;
        }
        i = i + 1;
    }
    proof {
        assert(!exists|k: int| is_first_nul(buf@, k));
    }
    0
}

/// The units of `buf` before index `len`.
pub fn prefix_units(buf: &[u16], len: usize) -> (r: Vec<u16>)
    requires
        len <= buf@.len(),
    ensures
        r@ == buf@.take(len as int),
{
    let mut r: Vec<u16> = Vec::new();
    let mut i: usize = 0;
    while i < len
        invariant
            len <= buf@.len(),
            i <= len,
            r@ == buf@.take(i as int),
        decreases len - i,
    {
        r.push(buf[i]);
        proof {
            assert(buf@.take(i + 1) == buf@.take(i as int).push(buf@[i as int]));
        }
        i = i + 1;
    }
    r
}


/// The text in a zero-terminated UTF-16 buffer, decoded with replacement of
/// unpaired surrogates; nothing when that text is empty (see `terminated_len`).
pub fn terminated_text(buf: &[u16]) -> (r: Option<String>)
    ensures
        match r {
            Some(t) => terminated_len(buf@) > 0 && t@ == utf16_lossy(
                buf@.take(terminated_len(buf@)),
            ),
            None => terminated_len(buf@) == 0,
        },
{
    let len = nul_terminated_len(buf);
    if len == 0 {
        return None;
    }
    let units = prefix_units(buf, len);
    Some(decode_utf16_lossy(units.as_slice()))
}


/// Whether `c` occurs nowhere in `s`.
pub open spec fn lacks_char(s: Seq<char>, c: char) -> bool {
    forall|i: int| 0 <= i < s.len() ==> s[i] != c
}

/// The last dot of `a + b`, where `a` ends in a dot and `b` has none, is
/// the one that ends `a`.
proof fn lemma_last_dot_of_suffix(a: Seq<char>, b: Seq<char>)
    requires
        a.len() > 0,
        a.last() == '.',
        lacks_char(b, '.'),
    ensures
        last_dot(a + b) == a.len() - 1,
    decreases b.len(),
{
    if b.len() == 0 {
        assert(a + b =~= a);
    } else {
        assert((a + b).drop_last() =~= a + b.drop_last());
        assert((a + b).last() == b.last());
        lemma_last_dot_of_suffix(a, b.drop_last());
    }
}

/// The extension of a file name is the text after its last dot: for a name
/// made of a non-empty part, a dot and a part without dots, it is that last
/// part (the name `..` aside, which has none).
pub proof fn law_extension_after_last_dot(n: Seq<char>, e: Seq<char>)
    requires
        n.len() > 0,
        lacks_char(e, '.'),
        !(n == seq!['.'] && e.len() == 0),
    ensures
        extension_of(n + seq!['.'] + e) == Some(e),
{
    let a = n + seq!['.'];
    let name = n + seq!['.'] + e;
    lemma_last_dot_of_suffix(a, e);
    assert(name =~= a + e);
    if is_parent_name(name) {
        assert(name.len() == 2);
        assert(e.len() == 0);
        assert(n.len() == 1);
        assert(n[0] == name[0]);
        assert(n =~= seq!['.']);
    }
    assert(name.subrange(a.len() as int, name.len() as int) =~= e);
}

/// The stem of such a name is the part before its last dot.
pub proof fn law_stem_before_last_dot(n: Seq<char>, e: Seq<char>)
    requires
        n.len() > 0,
        lacks_char(e, '.'),
        !(n == seq!['.'] && e.len() == 0),
    ensures
        file_stem_of(n + seq!['.'] + e) == Some(n),
{
    let a = n + seq!['.'];
    let name = n + seq!['.'] + e;
    lemma_last_dot_of_suffix(a, e);
    assert(name =~= a + e);
    if is_parent_name(name) {
        assert(name.len() == 2);
        assert(n =~= seq!['.']);
    }
    if name == seq!['.'] {
        assert(name.len() == 1);
    }
    assert(name.take(n.len() as int) =~= n);
}

/// A name with no dot after its first character has no extension.
pub proof fn law_no_extension_without_inner_dot(n: Seq<char>)
    requires
        forall|i: int| 1 <= i < n.len() ==> n[i] != '.',
    ensures
        extension_of(n) is None,
{
    lemma_last_dot(n);
}

/// A string contains every piece of itself: `needle` occurs in
/// `before + needle + after`, wherever it stands and however short it is.
pub proof fn law_contains_every_piece(before: Seq<char>, needle: Seq<char>, after: Seq<char>)
    ensures
        contains_seq(before + needle + after, needle),
{
    let h = before + needle + after;
    assert(h.subrange(before.len() as int, (before.len() + needle.len()) as int) =~= needle);
    assert(occurs_at(h, needle, before.len() as int));
}

/// A longer needle never occurs in a shorter string.
pub proof fn law_contains_needs_room(hay: Seq<char>, needle: Seq<char>)
    requires
        contains_seq(hay, needle),
    ensures
        needle.len() <= hay.len(),
{
}

/// Leading white space that trimming takes away: `trim_start_seq(s)` is
/// what follows the first `a` characters, all white space, and it starts
/// with a character that is not.
pub proof fn lemma_trim_start(s: Seq<char>) -> (a: int)
    ensures
        0 <= a <= s.len(),
        trim_start_seq(s) == s.skip(a),
        forall|i: int| 0 <= i < a ==> is_white_space(s[i]),
        a < s.len() ==> !is_white_space(s[a]),
    decreases s.len(),
{
    if s.len() > 0 && is_white_space(s[0]) {
        let a1 = lemma_trim_start(s.drop_first());
        assert(s.drop_first().skip(a1) =~= s.skip(a1 + 1));
        assert forall|i: int| 0 <= i < a1 + 1 implies is_white_space(s[i]) by {
            if i > 0 {
                assert(s[i] == s.drop_first()[i - 1]);
            }
        }
        if a1 + 1 < s.len() {
            assert(s[a1 + 1] == s.drop_first()[a1]);
        }
        a1 + 1
    } else {
        assert(s.skip(0) =~= s);
        0
    }
}

/// Trailing white space that trimming takes away: `trim_end_seq(s)` is the
/// first `b` characters, all after them are white space, and it ends with a
/// character that is not.
pub proof fn lemma_trim_end(s: Seq<char>) -> (b: int)
    ensures
        0 <= b <= s.len(),
        trim_end_seq(s) == s.take(b),
        forall|i: int| b <= i < s.len() ==> is_white_space(s[i]),
        b > 0 ==> !is_white_space(s[b - 1]),
    decreases s.len(),
{
    if s.len() > 0 && is_white_space(s.last()) {
        let b1 = lemma_trim_end(s.drop_last());
        assert(s.drop_last().take(b1) =~= s.take(b1));
        assert forall|i: int| b1 <= i < s.len() implies is_white_space(s[i]) by {
            if i < s.len() - 1 {
                assert(s[i] == s.drop_last()[i]);
            }
        }
        if b1 > 0 {
            assert(s[b1 - 1] == s.drop_last()[b1 - 1]);
        }
        b1
    } else {
        assert(s.take(s.len() as int) =~= s);
        s.len() as int
    }
}

/// Trimming keeps a contiguous piece of the string: only white space is
/// taken away, from both ends, and the piece kept neither starts nor ends
/// with white space.
pub proof fn law_trim_takes_only_outer_space(s: Seq<char>)
    ensures
        exists|a: int, b: int|
            0 <= a <= b <= s.len() && trim_seq(s) == s.subrange(a, b) && (forall|i: int|
                0 <= i < a ==> is_white_space(#[trigger] s[i])) && (forall|i: int|
                b <= i < s.len() ==> is_white_space(#[trigger] s[i])),
        trim_seq(s).len() > 0 ==> !is_white_space(trim_seq(s)[0]) && !is_white_space(
            trim_seq(s).last(),
        ),
{
    let a = lemma_trim_start(s);
    let t = s.skip(a);
    let b = lemma_trim_end(t);
    assert(trim_seq(s) == t.take(b));
    assert(t.take(b) =~= s.subrange(a, a + b));
    assert forall|i: int| a + b <= i < s.len() implies is_white_space(s[i]) by {
        assert(s[i] == t[i - a]);
    }
    assert(0 <= a <= a + b <= s.len() && trim_seq(s) == s.subrange(a, a + b));
    if b > 0 {
        assert(trim_seq(s)[0] == s[a]);
        assert(trim_seq(s).last() == t[b - 1]);
    }
}


/// Equality ignoring ASCII case ignores exactly ASCII case: a string equals
/// its ASCII-lowercased form, and two strings are equal ignoring ASCII case
/// only when they have the same length and each pair of characters is equal
/// once ASCII-lowercased.
pub proof fn law_eq_ignore_ascii_case(a: Seq<char>, b: Seq<char>)
    ensures
        eq_ignore_ascii_case_seq(a, a.map_values(|c: char| ascii_lower(c))),
        eq_ignore_ascii_case_seq(a, b) <==> (a.len() == b.len() && forall|i: int|
            0 <= i < a.len() ==> ascii_lower(#[trigger] a[i]) == ascii_lower(b[i])),
{
    let l = a.map_values(|c: char| ascii_lower(c));
    assert forall|i: int| 0 <= i < a.len() implies ascii_fold(a[i]) == ascii_fold(l[i]) by {
        assert(l[i] == ascii_lower(a[i]));
    }
    if a.len() == b.len() {
        assert forall|i: int| 0 <= i < a.len() implies (ascii_fold(a[i]) == ascii_fold(b[i])
            <==> ascii_lower(a[i]) == ascii_lower(b[i])) by {
            if ascii_lower(a[i]) == ascii_lower(b[i]) {
                assert(ascii_lower(a[i]) as u32 == ascii_lower(b[i]) as u32);
            }
        }
    }
}

} // verus!
