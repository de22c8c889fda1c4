//! Reading names off a command line or a settings field: surrounding
//! whitespace is dropped and ASCII letters are folded to lower case, so
//! `"  ULTRA "` and `"ultra"` name the same thing.

use vstd::prelude::*;

verus! {

/// Unicode's `White_Space` property, which is what `char::is_whitespace`
/// and therefore `str::trim` test against.
pub open spec fn is_white_space(c: char) -> bool {
    let u = c as u32;
    ||| 0x09 <= u <= 0x0D
    ||| u == 0x20
    ||| u == 0x85
    ||| u == 0xA0
    ||| u == 0x1680
    ||| 0x2000 <= u <= 0x200A
    ||| u == 0x2028
    ||| u == 0x2029
    ||| u == 0x202F
    ||| u == 0x205F
    ||| u == 0x3000
}

/// The text with its leading whitespace removed.
pub open spec fn trim_start(s: Seq<char>) -> Seq<char>
    decreases s.len(),
{
    if s.len() > 0 && is_white_space(s[0]) {
        trim_start(s.drop_first())
    } else {
        s
    }
}

/// The text with its trailing whitespace removed.
pub open spec fn trim_end(s: Seq<char>) -> Seq<char>
    decreases s.len(),
{
    if s.len() > 0 && is_white_space(s.last()) {
        trim_end(s.drop_last())
    } else {
        s
    }
}

/// Whitespace removed from both ends.
pub open spec fn trim(s: Seq<char>) -> Seq<char> {
    trim_end(trim_start(s))
}

/// An upper-case ASCII letter folded to lower case; anything else unchanged.
pub open spec fn ascii_lower(c: char) -> char {
    if 'A' <= c <= 'Z' {
        ((c as u32) + 32) as char
    } else {
        c
    }
}

/// The whole text with its ASCII letters folded to lower case.
pub open spec fn lower_ascii(s: Seq<char>) -> Seq<char> {
    s.map_values(|c: char| ascii_lower(c))
}

/// What a typed name is compared by: trimmed, then folded.
pub open spec fn normalized(s: Seq<char>) -> Seq<char> {
    lower_ascii(trim(s))
}

pub fn white_space(c: char) -> (b: bool)
    ensures
        b == is_white_space(c),
{
    let u = c as u32;
    (0x09 <= u && u <= 0x0D) || u == 0x20 || u == 0x85 || u == 0xA0 || u == 0x1680 || (0x2000
        <= u && u <= 0x200A) || u == 0x2028 || u == 0x2029 || u == 0x202F || u == 0x205F || u
        == 0x3000
}

pub fn fold_ascii(c: char) -> (r: char)
    ensures
        r == ascii_lower(c),
{
    if 'A' <= c && c <= 'Z' {
        let u = (c as u32) + 32;
        proof {
            assert(0x61 <= u <= 0x7A);
        }
        char_of_ascii(u)
    } else {
        c
    }
}

/// The character with the given code point, below 128.
fn char_of_ascii(u: u32) -> (c: char)
    requires
        u < 128,
    ensures
        c as u32 == u,
        c == u as char,
{
    let b: u8 = u as u8;
    let c = b as char;
    c
}

proof fn lemma_trim_start_at(s: Seq<char>, k: int)
    requires
        0 <= k <= s.len(),
        forall|i: int| 0 <= i < k ==> is_white_space(#[trigger] s[i]),
        k == s.len() || !is_white_space(s[k]),
    ensures
        trim_start(s) == s.subrange(k, s.len() as int),
    decreases k,
{
    if k == 0 {
        assert(s.subrange(0, s.len() as int) =~= s);
    } else {
        let t = s.drop_first();
        assert forall|i: int| 0 <= i < k - 1 implies is_white_space(#[trigger] t[i]) by {
            assert(t[i] == s[i + 1]);
        }
        lemma_trim_start_at(t, k - 1);
        assert(t.subrange(k - 1, t.len() as int) =~= s.subrange(k, s.len() as int));
    }
}

proof fn lemma_trim_end_at(s: Seq<char>, e: int)
    requires
        0 <= e <= s.len(),
        forall|i: int| e <= i < s.len() ==> is_white_space(#[trigger] s[i]),
        e == 0 || !is_white_space(s[e - 1]),
    ensures
        trim_end(s) == s.subrange(0, e),
    decreases s.len() - e,
{
    if e == s.len() {
        assert(s.subrange(0, e) =~= s);
    } else {
        let t = s.drop_last();
        assert forall|i: int| e <= i < t.len() implies is_white_space(#[trigger] t[i]) by {
            assert(t[i] == s[i]);
        }
        lemma_trim_end_at(t, e);
        assert(t.subrange(0, e) =~= s.subrange(0, e));
    }
}

/// The characters of `raw`, trimmed and folded.
pub fn normalize(raw: &str) -> (out: Vec<char>)
    ensures
        out@ == normalized(raw@),
{
    let len = raw.unicode_len();
    let mut start: usize = 0;
    while start < len && white_space(raw.get_char(start))
        invariant
            len == raw@.len(),
            start <= len,
            forall|i: int| 0 <= i < start ==> is_white_space(#[trigger] raw@[i]),
        decreases len - start,
    {
        start = start + 1;
    }
    let mut end: usize = len;
    while end > start && white_space(raw.get_char(end - 1))
        invariant
            len == raw@.len(),
            start <= end <= len,
            forall|i: int| end <= i < len ==> is_white_space(#[trigger] raw@[i]),
        decreases end - start,
    {
        end = end - 1;
    }
    let ghost s = raw@;
    proof {
        lemma_trim_start_at(s, start as int);
        let t = s.subrange(start as int, len as int);
        assert forall|i: int| end - start <= i < t.len() implies is_white_space(#[trigger] t[i]) by {
            assert(t[i] == s[i + start]);
        }
        if end > start {
            assert(t[end - start - 1] == s[end - 1]);
        }
        lemma_trim_end_at(t, end - start);
        assert(t.subrange(0, end - start) =~= s.subrange(start as int, end as int));
    }
    let mut out: Vec<char> = Vec::new();
    let mut i: usize = start;
    while i < end
        invariant
            len == raw@.len(),
            start <= i <= end <= len,
            s == raw@,
            trim(s) == s.subrange(start as int, end as int),
            out@ =~= lower_ascii(s.subrange(start as int, i as int)),
        decreases end - i,
    {
        let c = raw.get_char(i);
        out.push(fold_ascii(c));
        i = i + 1;
        proof {
            assert(lower_ascii(s.subrange(start as int, i as int)) =~= lower_ascii(
                s.subrange(start as int, (i - 1) as int),
            ).push(ascii_lower(c)));
        }
    }
    out
}

/// Whether `chars` spells out exactly `word`.
pub fn spells(chars: &Vec<char>, word: &str) -> (b: bool)
    ensures
        b == (chars@ == word@),
{
    let n = word.unicode_len();
    if chars.len() != n {
        return false;
    }
    let mut i: usize = 0;
    while i < n
        invariant
            n == word@.len(),
            chars@.len() == n,
            i <= n,
            forall|j: int| 0 <= j < i ==> chars@[j] == word@[j],
        decreases n - i,
    {
        if chars[i] != word.get_char(i) {
            return false;
        }
        i = i + 1;
    }
    assert(chars@ =~= word@);
    true
}

/// Whether two texts are the same, character for character.
pub fn same_text(a: &str, b: &str) -> (same: bool)
    ensures
        same == (a@ == b@),
{
    let n = a.unicode_len();
    if b.unicode_len() != n {
        return false;
    }
    let mut i: usize = 0;
    while i < n
        invariant
            n == a@.len(),
            n == b@.len(),
            i <= n,
            forall|j: int| 0 <= j < i ==> a@[j] == b@[j],
        decreases n - i,
    {
        if a.get_char(i) != b.get_char(i) {
            return false;
        }
        i = i + 1;
    }
    assert(a@ =~= b@);
    true
}

} // verus!
