//! Reading the resident memory size out of a process status text, such as
//! Linux's `/proc/self/status`.
//!
//! The text is read line by line. The first line that starts with `VmRSS:`
//! and holds at least two whitespace-separated words decides: its second
//! word, read as an unsigned decimal (an optional leading `+`, then digits),
//! is the size in kibibytes. A word that is no such number, or a size whose
//! byte count does not fit a `usize`, gives no result.

use vstd::prelude::*;
use crate::data::is_white_space;

verus! {

/// The end of the word that starts at `i`: the first white space, or `e`.
pub open spec fn word_end(s: Seq<char>, i: int, e: int) -> int
    decreases e - i,
{
    if i >= e || is_white_space(s[i]) {
        i
    } else {
        word_end(s, i + 1, e)
    }
}

/// The end of the white space that starts at `i`: the first other character, or `e`.
pub open spec fn space_end(s: Seq<char>, i: int, e: int) -> int
    decreases e - i,
{
    if i >= e || !is_white_space(s[i]) {
        i
    } else {
        space_end(s, i + 1, e)
    }
}

/// The end of the line that starts at `i`: the next `\n`, or the end of the text.
pub open spec fn line_end(s: Seq<char>, i: int) -> int
    decreases s.len() - i,
{
    if i >= s.len() || s[i] == '\n' {
        i
    } else {
        line_end(s, i + 1)
    }
}

/// The line `s[i..e]` starts with `VmRSS:`.
pub open spec fn is_rss_line(s: Seq<char>, i: int, e: int) -> bool {
    &&& e - i >= 6
    &&& s.subrange(i, i + 6) == "VmRSS:"@
}

/// A decimal digit.
pub open spec fn is_digit(c: char) -> bool {
    '0' <= c <= '9'
}

/// The value of the digits `s[c..d]`.
pub open spec fn digits_value(s: Seq<char>, c: int, d: int) -> nat
    decreases d - c,
{
    if d <= c {
        0
    } else {
        digits_value(s, c, d - 1) * 10 + (s[d - 1] as nat - '0' as nat) as nat
    }
}

/// Every character of `s[c..d]` is a digit.
pub open spec fn all_digits(s: Seq<char>, c: int, d: int) -> bool {
    forall|k: int| c <= k < d ==> is_digit(#[trigger] s[k])
}

/// The word `s[c..d]` read as a `usize`: an optional `+`, then at least one
/// digit, with a value that fits.
pub open spec fn word_value(s: Seq<char>, c: int, d: int) -> Option<nat> {
    let start = if d - c > 1 && s[c] == '+' {
        c + 1
    } else {
        c
    };
    if start < d && all_digits(s, start, d) && digits_value(s, start, d) <= usize::MAX {
        Some(digits_value(s, start, d))
    } else {
        None
    }
}

/// The size in bytes for a size of `kib` kibibytes, if it fits.
pub open spec fn kib_to_bytes(kib: Option<nat>) -> Option<nat> {
    match kib {
        Some(k) => if k * 1024 <= usize::MAX {
            Some(k * 1024)
        } else {
            None
        },
        None => None,
    }
}

/// The resident size found from the line that starts at `i` on.
pub open spec fn rss_from(s: Seq<char>, i: int) -> Option<nat>
    decreases s.len() - i,
{
    if i < 0 || i >= s.len() {
        None
    } else {
        let e = line_end(s, i);
        let a = space_end(s, i, e);
        let b = word_end(s, a, e);
        let c = space_end(s, b, e);
        if is_rss_line(s, i, e) && c < e {
            kib_to_bytes(word_value(s, c, word_end(s, c, e)))
        } else if i <= e < s.len() {
            rss_from(s, e + 1)
        } else {
            None
        }
    }
}

proof fn lemma_line_end_bounds(s: Seq<char>, i: int)
    requires
        0 <= i <= s.len(),
    ensures
        i <= line_end(s, i) <= s.len(),
        line_end(s, i) < s.len() ==> s[line_end(s, i)] == '\n',
    decreases s.len() - i,
{
    if i < s.len() && s[i] != '\n' {
        lemma_line_end_bounds(s, i + 1);
    }
}

proof fn lemma_word_end_bounds(s: Seq<char>, i: int, e: int)
    requires
        i <= e,
    ensures
        i <= word_end(s, i, e) <= e,
    decreases e - i,
{
    if i < e && !is_white_space(s[i]) {
        lemma_word_end_bounds(s, i + 1, e);
    }
}

proof fn lemma_space_end_bounds(s: Seq<char>, i: int, e: int)
    requires
        i <= e,
    ensures
        i <= space_end(s, i, e) <= e,
    decreases e - i,
{
    if i < e && is_white_space(s[i]) {
        lemma_space_end_bounds(s, i + 1, e);
    }
}

proof fn lemma_digits_grow(s: Seq<char>, c: int, j: int, d: int)
    requires
        c <= j <= d,
        all_digits(s, c, d),
    ensures
        digits_value(s, c, j) <= digits_value(s, c, d),
    decreases d - j,
{
    if j < d {
        lemma_digits_grow(s, c, j, d - 1);
    }
}

/// Tells whether `c` is white space.
fn white_space(c: char) -> (r: bool)
    ensures
        r == is_white_space(c),
{
    let u = c as u32;
    (0x09 <= u && u <= 0x0D) || u == 0x20 || u == 0x85 || u == 0xA0 || u == 0x1680 || (0x2000
        <= u && u <= 0x200A) || u == 0x2028 || u == 0x2029 || u == 0x202F || u == 0x205F || u
        == 0x3000
}

fn find_word_end(s: &Vec<char>, i: usize, e: usize) -> (r: usize)
    requires
        i <= e <= s@.len(),
    ensures
        r == word_end(s@, i as int, e as int),
{
    let mut j = i;
    while j < e && !white_space(s[j])
        invariant
            i <= j <= e <= s@.len(),
            word_end(s@, i as int, e as int) == word_end(s@, j as int, e as int),
        decreases e - j,
    {
        j = j + 1;
    }
    j
}

fn find_space_end(s: &Vec<char>, i: usize, e: usize) -> (r: usize)
    requires
        i <= e <= s@.len(),
    ensures
        r == space_end(s@, i as int, e as int),
{
    let mut j = i;
    while j < e && white_space(s[j])
        invariant
            i <= j <= e <= s@.len(),
            space_end(s@, i as int, e as int) == space_end(s@, j as int, e as int),
        decreases e - j,
    {
        j = j + 1;
    }
    j
}

fn find_line_end(s: &Vec<char>, i: usize) -> (r: usize)
    requires
        i <= s@.len(),
    ensures
        r == line_end(s@, i as int),
{
    let mut j = i;
    while j < s.len() && s[j] != '\n'
        invariant
            i <= j <= s@.len(),
            line_end(s@, i as int) == line_end(s@, j as int),
        decreases s@.len() - j,
    {
        j = j + 1;
    }
    j
}

fn starts_rss(s: &Vec<char>, i: usize, e: usize) -> (r: bool)
    requires
        i <= e <= s@.len(),
    ensures
        r == is_rss_line(s@, i as int, e as int),
{
    if e - i < 6 {
        return false;
    }
    let r = s[i] == 'V' && s[i + 1] == 'm' && s[i + 2] == 'R' && s[i + 3] == 'S' && s[i + 4]
        == 'S' && s[i + 5] == ':';
    proof {
        reveal_strlit("VmRSS:");
        if r {
            assert(s@.subrange(i as int, i + 6) =~= "VmRSS:"@);
        } else {
            if s@.subrange(i as int, i + 6) == "VmRSS:"@ {
                assert(s@.subrange(i as int, i + 6)[0] == s@[i as int]);
                assert(s@.subrange(i as int, i + 6)[1] == s@[i + 1]);
                assert(s@.subrange(i as int, i + 6)[2] == s@[i + 2]);
                assert(s@.subrange(i as int, i + 6)[3] == s@[i + 3]);
                assert(s@.subrange(i as int, i + 6)[4] == s@[i + 4]);
                assert(s@.subrange(i as int, i + 6)[5] == s@[i + 5]);
            }
        }
    }
    r
}

fn read_word(s: &Vec<char>, c: usize, d: usize) -> (r: Option<usize>)
    requires
        c <= d <= s@.len(),
    ensures
        match word_value(s@, c as int, d as int) {
            Some(v) => r == Some(v as usize),
            None => r is None,
        },
{
    let start = if d - c > 1 && s[c] == '+' {
        c + 1
    } else {
        c
    };
    if start >= d {
        return None;
    }
    let mut acc: usize = 0;
    let mut j = start;
    while j < d
        invariant
            start <= j <= d <= s@.len(),
            start < d,
            start as int == (if d - c > 1 && s@[c as int] == '+' {
                c + 1
            } else {
                c as int
            }),
            all_digits(s@, start as int, j as int),
            acc == digits_value(s@, start as int, j as int),
        decreases d - j,
    {
        let ch = s[j];
        if !('0' <= ch && ch <= '9') {
            assert(!all_digits(s@, start as int, d as int));
            return None;
        }
        let digit = (ch as u32 - '0' as u32) as usize;
        if acc > (usize::MAX - digit) / 10 {
            proof {
                if all_digits(s@, start as int, d as int) {
                    assert(digits_value(s@, start as int, j + 1) == acc * 10 + digit);
                    assert(acc * 10 + digit > usize::MAX) by (nonlinear_arith)
                        requires
                            acc > (usize::MAX - digit) / 10,
                            digit <= 9,
                    ;
                    lemma_digits_grow(s@, start as int, j + 1, d as int);
                }
            }
            return None;
        }
        assert(acc * 10 + digit <= usize::MAX) by (nonlinear_arith)
            requires
                acc <= (usize::MAX - digit) / 10,
                digit <= 9,
        ;
        acc = acc * 10 + digit;
        j = j + 1;
    }
    Some(acc)
}

/// Reads the resident memory size, in bytes, out of a process status text.
pub fn rss_bytes_from_status(status: &str) -> (r: Option<usize>)
    ensures
        match rss_from(status@, 0) {
            Some(v) => r == Some(v as usize),
            None => r is None,
        },
{
    let n = status.unicode_len();
    let mut s: Vec<char> = Vec::new();
    let mut k: usize = 0;
    while k < n
        invariant
            n == status@.len(),
            0 <= k <= n,
            s@ == status@.subrange(0, k as int),
        decreases n - k,
    {
        s.push(status.get_char(k));
        k = k + 1;
    }
    assert(s@ =~= status@);
    let mut i: usize = 0;
    while i < s.len()
        invariant
            s@ == status@,
            0 <= i <= s@.len(),
            rss_from(s@, 0) == rss_from(s@, i as int),
        decreases s@.len() - i,
    {
        let e = find_line_end(&s, i);
        proof {
            lemma_line_end_bounds(s@, i as int);
        }
        let a = find_space_end(&s, i, e);
        proof {
            lemma_space_end_bounds(s@, i as int, e as int);
        }
        let b = find_word_end(&s, a, e);
        proof {
            lemma_word_end_bounds(s@, a as int, e as int);
        }
        let c = find_space_end(&s, b, e);
        proof {
            lemma_space_end_bounds(s@, b as int, e as int);
        }
        if starts_rss(&s, i, e) && c < e {
            let d = find_word_end(&s, c, e);
            proof {
                lemma_word_end_bounds(s@, c as int, e as int);
            }
            return match read_word(&s, c, d) {
                Some(kib) => {
                    if kib > usize::MAX / 1024 {
                        None
                    } else {
                        Some(kib * 1024)
                    }
                },
                None => None,
            };
        }
        if e >= s.len() {
            return None;
        }
        i = e + 1;
    }
    None
}

} // verus!
