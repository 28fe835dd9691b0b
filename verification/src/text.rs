//! Verified building blocks for working with strings: character-wise
//! equality, prefix tests, searching, slicing and the case/separator
//! normalization that the build tool applies to environment-variable names.

use vstd::prelude::*;
use vstd::string::*;

verus! {

/// Character-wise equality of two string slices.
pub fn str_eq(a: &str, b: &str) -> (r: bool)
    ensures
        r == (a@ == b@),
{
    let alen = a.unicode_len();
    let blen = b.unicode_len();
    if alen != blen {
        return false;
    }
    let mut i: usize = 0;
    while i < alen
        invariant
            alen == a@.len(),
            blen == b@.len(),
            alen == blen,
            i <= alen,
            forall|j: int| 0 <= j < i ==> a@[j] == b@[j],
        decreases alen - i,
    {
        if a.get_char(i) != b.get_char(i) {
            return false;
        }
        i = i + 1;
    }
    proof {
        assert(a@ =~= b@);
    }
    true
}

/// Relies on `String::push`: appends one character at the end of the string.
#[verifier::external_body]
pub fn push_char(s: &mut String, c: char)
    ensures
        final(s)@ == old(s)@.push(c),
{
    s.push(c)
}

/// Whether `p` is a prefix of `s`.
pub open spec fn is_prefix_of(p: Seq<char>, s: Seq<char>) -> bool {
    p.len() <= s.len() && s.take(p.len() as int) == p
}

/// Prefix test on string slices.
pub fn str_starts_with(s: &str, p: &str) -> (r: bool)
    ensures
        r == is_prefix_of(p@, s@),
{
    let slen = s.unicode_len();
    let plen = p.unicode_len();
    if plen > slen {
        assert(!is_prefix_of(p@, s@));
        return false;
    }
    let mut i: usize = 0;
    while i < plen
        invariant
            slen == s@.len(),
            plen == p@.len(),
            plen <= slen,
            i <= plen,
            forall|j: int| 0 <= j < i ==> s@[j] == p@[j],
        decreases plen - i,
    {
        if s.get_char(i) != p.get_char(i) {
            assert(s@.take(plen as int)[i as int] != p@[i as int]);
            return false;
        }
        i = i + 1;
    }
    proof {
        assert(s@.take(plen as int) =~= p@);
    }
    true
}

/// Index of the first occurrence of `c` in `s` at or after `from`,
/// if there is one.
pub open spec fn find_char_from(s: Seq<char>, from: int, c: char) -> Option<int>
    decreases s.len() - from,
{
    if from < 0 || from >= s.len() {
        None
    } else if s[from] == c {
        Some(from)
    } else {
        find_char_from(s, from + 1, c)
    }
}

/// What `find_char_from` means, stated without the recursion: it yields the
/// least index of `c` at or after `from`, or nothing when `c` does not occur
/// there.
pub proof fn lemma_find_char_from(s: Seq<char>, from: int, c: char)
    requires
        0 <= from <= s.len(),
    ensures
        match find_char_from(s, from, c) {
            Some(i) => from <= i < s.len() && s[i] == c && forall|j: int|
                from <= j < i ==> s[j] != c,
            None => forall|j: int| from <= j < s.len() ==> s[j] != c,
        },
    decreases s.len() - from,
{
    if from < s.len() && s[from] != c {
        lemma_find_char_from(s, from + 1, c);
    }
}

/// Finds the first occurrence of `c` in `s` at or after `from`.
pub fn str_find_char_from(s: &str, from: usize, c: char) -> (r: Option<usize>)
    requires
        from <= s@.len(),
    ensures
        match r {
            Some(i) => find_char_from(s@, from as int, c) == Some(i as int),
            None => find_char_from(s@, from as int, c) is None,
        },
{
    let len = s.unicode_len();
    let mut i: usize = from;
    while i < len
        invariant
            len == s@.len(),
            from <= i <= len,
            find_char_from(s@, from as int, c) == find_char_from(s@, i as int, c),
        decreases len - i,
    {
        if s.get_char(i) == c {
            return Some(i);
        }
        i = i + 1;
    }
    None
}

/// Splits `s` from position `start` on at every occurrence of `sep`. The
/// result always holds one more piece than there are separators left.
pub open spec fn split_on_from(s: Seq<char>, sep: char, start: int) -> Seq<Seq<char>>
    decreases s.len() - start,
    via split_on_from_decreases
{
    if start < 0 || start > s.len() {
        Seq::empty()
    } else {
        match find_char_from(s, start, sep) {
            None => seq![s.subrange(start, s.len() as int)],
            Some(i) => seq![s.subrange(start, i)] + split_on_from(s, sep, i + 1),
        }
    }
}

#[via_fn]
proof fn split_on_from_decreases(s: Seq<char>, sep: char, start: int) {
    if 0 <= start <= s.len() {
        lemma_find_char_from(s, start, sep);
    }
}

/// Every line of a list with one trailing carriage return removed.
pub open spec fn strip_cr_all(ls: Seq<Seq<char>>) -> Seq<Seq<char>> {
    ls.map_values(|l: Seq<char>| strip_cr(l))
}

/// A line with one trailing carriage return removed.
pub open spec fn strip_cr(l: Seq<char>) -> Seq<char> {
    if l.len() > 0 && l.last() == '\r' {
        l.drop_last()
    } else {
        l
    }
}

/// The lines of `s`: pieces between line feeds, each with one trailing
/// carriage return removed, and with no final empty line when `s` ends in a
/// line feed.
pub open spec fn lines_of(s: Seq<char>) -> Seq<Seq<char>> {
    if s.len() == 0 {
        Seq::empty()
    } else {
        let raw = split_on_from(s, '\n', 0);
        let complete = if s.last() == '\n' {
            raw.drop_last()
        } else {
            raw
        };
        strip_cr_all(complete)
    }
}

/// Splits a string at every occurrence of `sep`.
pub fn split_on(s: &str, sep: char) -> (r: Vec<String>)
    ensures
        r.deep_view() == split_on_from(s@, sep, 0),
{
    let len = s.unicode_len();
    let mut out: Vec<String> = Vec::new();
    let mut start: usize = 0;
    loop
        invariant
            len == s@.len(),
            start <= len,
            out.deep_view() + split_on_from(s@, sep, start as int) =~= split_on_from(s@, sep, 0),
        ensures
            out.deep_view() == split_on_from(s@, sep, 0),
        decreases len - start,
    {
        let ghost before = out.deep_view();
        match str_find_char_from(s, start, sep) {
            Some(i) => {
                proof {
                    lemma_find_char_from(s@, start as int, sep);
                }
                let piece = s.substring_char(start, i);
                out.push(piece.to_owned());
                proof {
                    assert(out.deep_view() =~= before + seq![s@.subrange(start as int, i as int)]);
                }
                start = i + 1;
            },
            None => {
                let piece = s.substring_char(start, len);
                out.push(piece.to_owned());
                proof {
                    assert(out.deep_view() =~= before + seq![
                        s@.subrange(start as int, len as int),
                    ]);
                    assert(out.deep_view() + Seq::<Seq<char>>::empty() =~= out.deep_view());
                }
                return out;
            },
        }
    }
}

/// A copy of a line with one trailing carriage return removed.
pub fn strip_cr_exec(l: &str) -> (r: String)
    ensures
        r@ == strip_cr(l@),
{
    let len = l.unicode_len();
    if len > 0 && l.get_char(len - 1) == '\r' {
        let stripped = l.substring_char(0, len - 1);
        proof {
            assert(stripped@ =~= l@.drop_last());
        }
        stripped.to_owned()
    } else {
        l.to_owned()
    }
}

/// The lines of a string.
pub fn split_lines(s: &str) -> (r: Vec<String>)
    ensures
        r.deep_view() == lines_of(s@),
{
    let len = s.unicode_len();
    if len == 0 {
        let out: Vec<String> = Vec::new();
        proof {
            assert(out.deep_view() =~= lines_of(s@));
        }
        return out;
    }
    let mut raw = split_on(s, '\n');
    if s.get_char(len - 1) == '\n' {
        proof {
            lemma_split_on_last_empty(s@);
            assert(raw.len() > 0);
        }
        let _last = raw.pop();
        proof {
            assert(raw.deep_view() =~= split_on_from(s@, '\n', 0).drop_last());
        }
    }
    let n = raw.len();
    let ghost complete = raw.deep_view();
    let mut out: Vec<String> = Vec::new();
    let mut i: usize = 0;
    while i < n
        invariant
            n == raw.len(),
            complete == raw.deep_view(),
            i <= n,
            out.deep_view() =~= strip_cr_all(complete.take(i as int)),
        decreases n - i,
    {
        let ghost before = out.deep_view();
        let stripped = strip_cr_exec(raw[i].as_str());
        out.push(stripped);
        proof {
            assert(stripped@ == strip_cr(complete[i as int]));
            assert forall|j: int| 0 <= j < i + 1 implies strip_cr_all(complete.take(i + 1))[j]
                == strip_cr(complete[j]) by {
                assert(complete.take(i + 1)[j] == complete[j]);
            }
            assert forall|j: int| 0 <= j < i implies before[j] == strip_cr(complete[j]) by {
                assert(before[j] == strip_cr_all(complete.take(i as int))[j]);
                assert(complete.take(i as int)[j] == complete[j]);
            }
            assert(before.len() == i as int);
            assert(out@.len() == i + 1);
            assert(out.deep_view().len() == out@.len());
            assert forall|j: int| 0 <= j < i + 1 implies out.deep_view()[j] == strip_cr(
                complete[j],
            ) by {
                if j < i {
                    assert(out.deep_view()[j] == before[j]);
                } else {
                    assert(out.deep_view()[j] == stripped@);
                }
            }
            assert(out.deep_view() =~= strip_cr_all(complete.take(i + 1)));
        }
        i = i + 1;
    }
    proof {
        assert(complete.take(n as int) =~= complete);
        assert(out.deep_view() =~= lines_of(s@));
    }
    out
}

/// A split keeps at least one piece, and when the string ends in the
/// separator the last piece is empty.
pub proof fn lemma_split_on_last_empty(s: Seq<char>)
    requires
        s.len() > 0,
        s.last() == '\n',
    ensures
        split_on_from(s, '\n', 0).len() >= 1,
{
}

/// Every separator turned into an underscore: how a crate name appears as an
/// identifier in source code.
pub open spec fn dash_to_underscore(s: Seq<char>) -> Seq<char> {
    s.map_values(|c: char| if c == '-' {
        '_'
    } else {
        c
    })
}

/// A copy of `s` with every `-` replaced by `_`.
pub fn dash_to_underscore_exec(s: &str) -> (r: String)
    ensures
        r@ == dash_to_underscore(s@),
{
    let len = s.unicode_len();
    let mut out = String::new();
    let mut i: usize = 0;
    while i < len
        invariant
            len == s@.len(),
            i <= len,
            out@ == dash_to_underscore(s@).take(i as int),
        decreases len - i,
    {
        let c = s.get_char(i);
        let mapped: char = if c == '-' {
            '_'
        } else {
            c
        };
        push_char(&mut out, mapped);
        proof {
            assert(out@ =~= dash_to_underscore(s@).take(i + 1));
        }
        i = i + 1;
    }
    proof {
        assert(dash_to_underscore(s@).take(len as int) =~= dash_to_underscore(s@));
    }
    out
}

/// Index of the last occurrence of `c` strictly before position `i`, if any.
pub open spec fn rfind_char(s: Seq<char>, i: int, c: char) -> Option<int>
    decreases i,
{
    if i <= 0 || i > s.len() {
        None
    } else if s[i - 1] == c {
        Some(i - 1)
    } else {
        rfind_char(s, i - 1, c)
    }
}

/// The directory part of a path: everything before the last separator, empty
/// when the path has none.
pub open spec fn parent_of(path: Seq<char>) -> Seq<char> {
    match rfind_char(path, path.len() as int, '/') {
        None => Seq::empty(),
        Some(i) => path.take(i),
    }
}

/// The directory part of a path.
pub fn parent_of_exec(path: &str) -> (r: String)
    ensures
        r@ == parent_of(path@),
{
    let len = path.unicode_len();
    let mut i: usize = len;
    loop
        invariant
            len == path@.len(),
            i <= len,
            rfind_char(path@, len as int, '/') == rfind_char(path@, i as int, '/'),
        ensures
            rfind_char(path@, len as int, '/') == (if i == 0 {
                None::<int>
            } else {
                Some((i - 1) as int)
            }),
        decreases i,
    {
        if i == 0 {
            break;
        }
        if path.get_char(i - 1) == '/' {
            break;
        }
        i = i - 1;
    }
    if i == 0 {
        let out = String::new();
        proof {
            assert(out@ =~= parent_of(path@));
        }
        out
    } else {
        let piece = path.substring_char(0, i - 1);
        proof {
            assert(piece@ =~= parent_of(path@));
        }
        piece.to_owned()
    }
}

/// `src` made relative to the directory `dir`: the empty directory leaves
/// `src` alone; otherwise `src` must lie under `dir`, and the separator after
/// `dir` is removed with it.
pub open spec fn strip_dir(src: Seq<char>, dir: Seq<char>) -> Option<Seq<char>> {
    if dir.len() == 0 {
        Some(src)
    } else if is_prefix_of(dir.push('/'), src) {
        Some(src.skip(dir.len() as int + 1))
    } else {
        None
    }
}

/// Makes `src` relative to the directory `dir`, when it lies under it.
pub fn strip_dir_exec(src: &str, dir: &str) -> (r: Option<String>)
    ensures
        match r {
            Some(rel) => strip_dir(src@, dir@) == Some(rel@),
            None => strip_dir(src@, dir@) is None,
        },
{
    let dlen = dir.unicode_len();
    if dlen == 0 {
        return Some(src.to_owned());
    }
    let mut dir_slash = dir.to_owned();
    push_char(&mut dir_slash, '/');
    if str_starts_with(src, dir_slash.as_str()) {
        let slen = src.unicode_len();
        proof {
            assert(dir_slash@ == dir@.push('/'));
            assert(dir_slash@.len() == dlen + 1);
        }
        let rest = src.substring_char(dlen + 1, slen);
        proof {
            assert(rest@ =~= src@.skip(dir@.len() as int + 1));
        }
        Some(rest.to_owned())
    } else {
        proof {
            assert(dir_slash@ == dir@.push('/'));
        }
        None
    }
}

/// Whether `c` is one of the ASCII whitespace characters this crate trims.
pub open spec fn is_ws(c: char) -> bool {
    c == ' ' || c == '\t' || c == '\r' || c == '\n'
}

fn is_ws_exec(c: char) -> (r: bool)
    ensures
        r == is_ws(c),
{
    c == ' ' || c == '\t' || c == '\r' || c == '\n'
}

/// The first position at or after `i` holding a non-whitespace character.
pub open spec fn trim_start_idx(s: Seq<char>, i: int) -> int
    decreases s.len() - i,
{
    if i < 0 || i >= s.len() {
        i
    } else if is_ws(s[i]) {
        trim_start_idx(s, i + 1)
    } else {
        i
    }
}

/// The position right after the last non-whitespace character before `i`.
pub open spec fn trim_end_idx(s: Seq<char>, i: int) -> int
    decreases i,
{
    if i <= 0 || i > s.len() {
        i
    } else if is_ws(s[i - 1]) {
        trim_end_idx(s, i - 1)
    } else {
        i
    }
}

/// `s` with leading and trailing ASCII whitespace removed.
pub open spec fn trim_ws(s: Seq<char>) -> Seq<char> {
    let lo = trim_start_idx(s, 0);
    let hi = trim_end_idx(s, s.len() as int);
    if lo <= hi {
        s.subrange(lo, hi)
    } else {
        Seq::empty()
    }
}

/// A copy of `s` with leading and trailing ASCII whitespace removed.
pub fn trim_ws_exec(s: &str) -> (r: String)
    ensures
        r@ == trim_ws(s@),
{
    let len = s.unicode_len();
    let mut lo: usize = 0;
    loop
        invariant
            len == s@.len(),
            lo <= len,
            trim_start_idx(s@, 0) == trim_start_idx(s@, lo as int),
        ensures
            lo <= len,
            lo == trim_start_idx(s@, 0),
        decreases len - lo,
    {
        if lo == len {
            break;
        }
        if is_ws_exec(s.get_char(lo)) {
            lo = lo + 1;
        } else {
            break;
        }
    }
    let mut hi: usize = len;
    loop
        invariant
            len == s@.len(),
            lo <= hi <= len,
            trim_end_idx(s@, len as int) == trim_end_idx(s@, hi as int),
        ensures
            lo <= hi <= len,
            trim_end_idx(s@, len as int) == trim_end_idx(s@, hi as int),
            hi == lo || !is_ws(s@[hi - 1]),
        decreases hi,
    {
        if hi == lo {
            break;
        }
        if is_ws_exec(s.get_char(hi - 1)) {
            hi = hi - 1;
        } else {
            break;
        }
    }
    proof {
        if hi > lo {
            assert(trim_end_idx(s@, hi as int) == hi);
        } else {
            lemma_trim_end_le(s@, hi as int);
        }
    }
    let piece = s.substring_char(lo, hi);
    proof {
        assert(piece@ =~= trim_ws(s@));
    }
    piece.to_owned()
}

/// The backward scan never moves forward.
proof fn lemma_trim_end_le(s: Seq<char>, i: int)
    requires
        0 <= i <= s.len(),
    ensures
        trim_end_idx(s, i) <= i,
    decreases i,
{
    if 0 < i <= s.len() && is_ws(s[i - 1]) {
        lemma_trim_end_le(s, i - 1);
    }
}

/// The normalization maps every character to a fixed point: applying it
/// twice changes nothing more.
pub proof fn lemma_envify_idempotent(s: Seq<char>)
    ensures
        envify_seq(envify_seq(s)) == envify_seq(s),
{
    assert forall|i: int| 0 <= i < s.len() implies envify_seq(envify_seq(s))[i] == envify_seq(s)[i] by {
        assert(envify_char(envify_char(s[i])) == envify_char(s[i]));
    }
    assert(envify_seq(envify_seq(s)) =~= envify_seq(s));
}

/// One character of the environment-variable normalization: ASCII lower case
/// letters go to upper case and `-` goes to `_`; everything else is kept.
pub open spec fn envify_char(c: char) -> char {
    if c == '-' {
        '_'
    } else if 'a' <= c && c <= 'z' {
        (((c as u32) - 32) as u32) as char
    } else {
        c
    }
}

/// The environment-variable normalization of a whole string.
pub open spec fn envify_seq(s: Seq<char>) -> Seq<char> {
    s.map_values(|c: char| envify_char(c))
}

fn envify_char_exec(c: char) -> (r: char)
    ensures
        r == envify_char(c),
{
    match c {
        '-' => '_',
        'a' => 'A',
        'b' => 'B',
        'c' => 'C',
        'd' => 'D',
        'e' => 'E',
        'f' => 'F',
        'g' => 'G',
        'h' => 'H',
        'i' => 'I',
        'j' => 'J',
        'k' => 'K',
        'l' => 'L',
        'm' => 'M',
        'n' => 'N',
        'o' => 'O',
        'p' => 'P',
        'q' => 'Q',
        'r' => 'R',
        's' => 'S',
        't' => 'T',
        'u' => 'U',
        'v' => 'V',
        'w' => 'W',
        'x' => 'X',
        'y' => 'Y',
        'z' => 'Z',
        _ => c,
    }
}

/// Applies to a link key the same case/separator transform the build tool
/// uses for environment-variable names.
pub fn envify(s: &str) -> (r: String)
    ensures
        r@ == envify_seq(s@),
{
    let len = s.unicode_len();
    let mut out = String::new();
    let mut i: usize = 0;
    while i < len
        invariant
            len == s@.len(),
            i <= len,
            out@ == envify_seq(s@).take(i as int),
        decreases len - i,
    {
        let c = envify_char_exec(s.get_char(i));
        push_char(&mut out, c);
        proof {
            assert(out@ =~= envify_seq(s@).take(i + 1));
        }
        i = i + 1;
    }
    proof {
        assert(envify_seq(s@).take(len as int) =~= envify_seq(s@));
    }
    out
}

} // verus!
