//! Character and string helpers shared by the editing and rendering logic.
//!
//! Strings are modelled by their character sequences (`Seq<char>`).  The few
//! places where the standard library's behaviour is taken on trust are the
//! small wrappers below; everything else is verified against them.

use vstd::prelude::*;
use vstd::string::StrSliceExecFns;
use vstd::string::StringExecFns;

verus! {

/// Relies on char::is_whitespace: whether the character has the Unicode
/// whitespace property, a function of the character alone.
pub uninterp spec fn char_is_whitespace(c: char) -> bool;

/// Relies on char::is_whitespace (see [`char_is_whitespace`]).
#[verifier::external_body]
pub(crate) fn is_whitespace_char(c: char) -> (r: bool)
    ensures
        r == char_is_whitespace(c),
{
    c.is_whitespace()
}

/// Relies on char::to_uppercase: the Unicode uppercase mapping of the
/// character, a function of the character alone; this names the first
/// character it yields.
pub uninterp spec fn upper_first_of(c: char) -> char;

/// Relies on char::to_uppercase, whose iterator yields one or more
/// characters, the first of which this returns.
#[verifier::external_body]
pub(crate) fn to_uppercase_first(c: char) -> (r: char)
    ensures
        r == upper_first_of(c),
{
    c.to_uppercase().next().unwrap()
}

/// Relies on String::push: appends the character at the end of the string.
#[verifier::external_body]
pub(crate) fn push_char(s: &mut String, c: char)
    ensures
        final(s)@ == old(s)@.push(c),
{
    s.push(c)
}

/// The number of bytes the character occupies in UTF-8.
pub open spec fn spec_utf8_len(c: char) -> int {
    if (c as u32) < 0x80 {
        1
    } else if (c as u32) < 0x800 {
        2
    } else if (c as u32) < 0x10000 {
        3
    } else {
        4
    }
}

/// The number of bytes the character occupies in UTF-8.
pub fn utf8_len(c: char) -> (n: usize)
    ensures
        n == spec_utf8_len(c),
{
    let u = c as u32;
    if u < 0x80 {
        1
    } else if u < 0x800 {
        2
    } else if u < 0x10000 {
        3
    } else {
        4
    }
}

/// A run of `n` space characters.
pub open spec fn spaces(n: nat) -> Seq<char> {
    Seq::new(n, |i: int| ' ')
}

/// Appends spaces to `s` until it is at least `width` characters long.
pub fn pad_to_width(s: &mut String, width: usize)
    ensures
        old(s)@.len() >= width ==> final(s)@ == old(s)@,
        old(s)@.len() < width ==> final(s)@ == old(s)@ + spaces((width - old(s)@.len()) as nat),
        final(s)@.len() >= width,
{
    let len = s.as_str().unicode_len();
    let pad: usize = if len >= width { 0 } else { width - len };
    proof {
        assert(old(s)@ + spaces(0) =~= old(s)@);
    }
    let mut i: usize = 0;
    while i < pad
        invariant
            i <= pad,
            pad == if old(s)@.len() >= width { 0int } else { width - old(s)@.len() },
            s@ == old(s)@ + spaces(i as nat),
        decreases pad - i,
    {
        push_char(s, ' ');
        i = i + 1;
        proof {
            assert(s@ =~= old(s)@ + spaces(i as nat));
        }
    }
}

/// The string with `c` inserted before character offset `char_idx`.
pub fn insert_char_at(s: &String, char_idx: usize, c: char) -> (r: String)
    requires
        char_idx <= s@.len(),
    ensures
        r@ == s@.insert(char_idx as int, c),
{
    let n = s.as_str().unicode_len();
    let head = s.as_str().substring_char(0, char_idx);
    let tail = s.as_str().substring_char(char_idx, n);
    let mut r = String::new();
    r.append(head);
    push_char(&mut r, c);
    r.append(tail);
    proof {
        assert(r@ =~= s@.insert(char_idx as int, c));
    }
    r
}

/// The string with the character at offset `char_idx` removed.
pub fn remove_char_at(s: &String, char_idx: usize) -> (r: String)
    requires
        char_idx < s@.len(),
    ensures
        r@ == s@.remove(char_idx as int),
{
    let n = s.as_str().unicode_len();
    let head = s.as_str().substring_char(0, char_idx);
    let tail = s.as_str().substring_char(char_idx + 1, n);
    let mut r = String::new();
    r.append(head);
    r.append(tail);
    proof {
        assert(r@ =~= s@.remove(char_idx as int));
    }
    r
}

/// The index of the first non-whitespace character at or after `i`.
pub open spec fn ws_prefix_end(s: Seq<char>, i: int) -> int
    recommends
        0 <= i <= s.len(),
    decreases s.len() - i when 0 <= i <= s.len()
{
    if i < s.len() && char_is_whitespace(s[i]) {
        ws_prefix_end(s, i + 1)
    } else {
        i
    }
}

/// One past the index of the last non-whitespace character before `j`.
pub open spec fn ws_suffix_start(s: Seq<char>, j: int) -> int
    recommends
        0 <= j <= s.len(),
    decreases j when 0 <= j <= s.len()
{
    if j > 0 && char_is_whitespace(s[j - 1]) {
        ws_suffix_start(s, j - 1)
    } else {
        j
    }
}

/// The character sequence with leading and trailing whitespace removed.
pub open spec fn spec_trim(s: Seq<char>) -> Seq<char> {
    let a = ws_prefix_end(s, 0);
    let b = ws_suffix_start(s, s.len() as int);
    if a <= b {
        s.subrange(a, b)
    } else {
        Seq::empty()
    }
}

/// Removes leading and trailing whitespace.
pub fn trim(s: &str) -> (r: String)
    ensures
        r@ == spec_trim(s@),
{
    let n = s.unicode_len();
    let mut start: usize = 0;
    while start < n && is_whitespace_char(s.get_char(start))
        invariant
            0 <= start <= n,
            n == s@.len(),
            ws_prefix_end(s@, 0) == ws_prefix_end(s@, start as int),
            forall|k: int| 0 <= k < start ==> char_is_whitespace(#[trigger] s@[k]),
        decreases n - start,
    {
        start = start + 1;
    }
    let mut end: usize = n;
    while end > start && is_whitespace_char(s.get_char(end - 1))
        invariant
            start <= end <= n,
            n == s@.len(),
            ws_suffix_start(s@, n as int) == ws_suffix_start(s@, end as int),
            forall|k: int| end <= k < n ==> char_is_whitespace(#[trigger] s@[k]),
        decreases end,
    {
        end = end - 1;
    }
    proof {
        let a = ws_prefix_end(s@, 0);
        let b = ws_suffix_start(s@, s@.len() as int);
        assert(a == start);
        if end > start {
            // The scan from the right stopped at a non-whitespace character,
            // so the spec-level scan stops at the same place.
            assert(b == end);
        } else {
            // The whole string is whitespace, so the spec-level suffix scan
            // runs down to 0 and the trimmed result is empty either way.
            lemma_ws_suffix_all_ws(s@, end as int);
            assert(b == 0);
        }
    }
    let r = s.substring_char(start, end);
    let mut out = String::new();
    out.append(r);
    proof {
        assert(out@ =~= spec_trim(s@));
    }
    out
}

/// When every character before `j` is whitespace, the suffix scan runs all
/// the way down to 0.
proof fn lemma_ws_suffix_all_ws(s: Seq<char>, j: int)
    requires
        0 <= j <= s.len(),
        forall|k: int| 0 <= k < j ==> char_is_whitespace(#[trigger] s[k]),
    ensures
        ws_suffix_start(s, j) == 0,
    decreases j,
{
    if j > 0 {
        lemma_ws_suffix_all_ws(s, j - 1);
    }
}


/// Whether two strings hold the same characters.
pub fn str_eq(a: &str, b: &str) -> (r: bool)
    ensures
        r == (a@ == b@),
{
    let na = a.unicode_len();
    let nb = b.unicode_len();
    if na != nb {
        return false;
    }
    let mut i: usize = 0;
    while i < na
        invariant
            i <= na,
            na == a@.len(),
            na == b@.len(),
            forall|j: int| 0 <= j < i ==> a@[j] == b@[j],
        decreases na - i,
    {
        if a.get_char(i) != b.get_char(i) {
            return false;
        }
        i = i + 1;
    }
    proof {
        assert(a@ =~= b@);
    }
    true
}

/// The words of `s` collected by one left-to-right scan: `cur` is the word
/// being read and `acc` the words already read; whitespace ends a word.
pub open spec fn split_ws_scan(
    s: Seq<char>,
    i: int,
    cur: Seq<char>,
    acc: Seq<Seq<char>>,
) -> Seq<Seq<char>>
    decreases s.len() - i when 0 <= i <= s.len()
{
    if i >= s.len() {
        if cur.len() > 0 {
            acc.push(cur)
        } else {
            acc
        }
    } else if char_is_whitespace(s[i]) {
        if cur.len() > 0 {
            split_ws_scan(s, i + 1, Seq::empty(), acc.push(cur))
        } else {
            split_ws_scan(s, i + 1, Seq::empty(), acc)
        }
    } else {
        split_ws_scan(s, i + 1, cur.push(s[i]), acc)
    }
}

/// The maximal whitespace-free words of `s`, in order.
pub open spec fn spec_split_ws(s: Seq<char>) -> Seq<Seq<char>> {
    split_ws_scan(s, 0, Seq::empty(), Seq::empty())
}

/// Splits a string around runs of whitespace; no token is empty or holds
/// whitespace.
pub fn split_ws(s: &str) -> (r: Vec<String>)
    ensures
        r@.map_values(|t: String| t@) == spec_split_ws(s@),
{
    let n = s.unicode_len();
    let mut i: usize = 0;
    let mut cur = String::new();
    let mut cur_len: usize = 0;
    let mut acc: Vec<String> = Vec::new();
    proof {
        assert(acc@.map_values(|t: String| t@) =~= Seq::<Seq<char>>::empty());
    }
    while i < n
        invariant
            i <= n,
            n == s@.len(),
            cur_len == cur@.len(),
            cur_len <= i,
            spec_split_ws(s@) == split_ws_scan(
                s@,
                i as int,
                cur@,
                acc@.map_values(|t: String| t@),
            ),
        decreases n - i,
    {
        let ghost oi = i as int;
        let ghost ocur = cur@;
        let ghost oacc = acc@.map_values(|t: String| t@);
        let c = s.get_char(i);
        if is_whitespace_char(c) {
            if cur_len > 0 {
                acc.push(cur);
                cur = String::new();
                cur_len = 0;
                proof {
                    assert(acc@.map_values(|t: String| t@) =~= oacc.push(ocur));
                    assert(split_ws_scan(s@, oi, ocur, oacc) == split_ws_scan(
                        s@,
                        oi + 1,
                        Seq::empty(),
                        oacc.push(ocur),
                    ));
                }
            } else {
                proof {
                    assert(ocur =~= Seq::<char>::empty());
                    assert(split_ws_scan(s@, oi, ocur, oacc) == split_ws_scan(
                        s@,
                        oi + 1,
                        Seq::empty(),
                        oacc,
                    ));
                }
            }
        } else {
            push_char(&mut cur, c);
            cur_len = cur_len + 1;
            proof {
                assert(split_ws_scan(s@, oi, ocur, oacc) == split_ws_scan(
                    s@,
                    oi + 1,
                    ocur.push(s@[oi]),
                    oacc,
                ));
            }
        }
        i = i + 1;
    }
    if cur_len > 0 {
        let ghost prev_acc = acc@.map_values(|t: String| t@);
        acc.push(cur);
        proof {
            assert(acc@.map_values(|t: String| t@) =~= prev_acc.push(acc@[acc@.len() - 1]@));
        }
    }
    acc
}

} // verus!
