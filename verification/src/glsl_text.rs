//! Character-level text handling for GLSL sources: character classes, line
//! splitting, decimal numbers, and the small grammars of preprocessor
//! directives.
//!
//! Whitespace is the Unicode `White_Space` set; word characters are ASCII
//! letters, digits and `_`.

use vstd::prelude::*;

verus! {

/// Unicode `White_Space`.
pub open spec fn is_ws(c: char) -> bool {
    let v = c as u32;
    (0x09 <= v && v <= 0x0D) || v == 0x20 || v == 0x85 || v == 0xA0 || v == 0x1680 || (0x2000
        <= v && v <= 0x200A) || v == 0x2028 || v == 0x2029 || v == 0x202F || v == 0x205F || v
        == 0x3000
}

/// The Unicode word class `\w` (UTS #18 Annex C): whether `c` is a word
/// character, as `regex_syntax::is_word_character` decides it.
pub uninterp spec fn is_word(c: char) -> bool;

/// ASCII letters, digits and `_`: the ASCII members of the word class.
pub open spec fn is_ascii_word(c: char) -> bool {
    let v = c as u32;
    (0x30 <= v && v <= 0x39) || (0x41 <= v && v <= 0x5A) || (0x61 <= v && v <= 0x7A) || v == 0x5F
}

/// ASCII decimal digits.
pub open spec fn is_digit(c: char) -> bool {
    let v = c as u32;
    0x30 <= v && v <= 0x39
}

pub fn is_ws_char(c: char) -> (r: bool)
    ensures
        r == is_ws(c),
{
    let v = c as u32;
    (0x09 <= v && v <= 0x0D) || v == 0x20 || v == 0x85 || v == 0xA0 || v == 0x1680 || (0x2000
        <= v && v <= 0x200A) || v == 0x2028 || v == 0x2029 || v == 0x202F || v == 0x205F || v
        == 0x3000
}

/// `regex_syntax::is_word_character`: whether `c` is in the Unicode word
/// class (letters, marks, decimal digits, connector punctuation and join
/// controls, looked up in the crate's Unicode tables; it does not panic with
/// the crate's default features). Its result is named `is_word`; of it the
/// contract states only that on ASCII the class is the letters, the digits
/// and `_`, which the crate tests first.
#[verifier::external_body]
fn is_word_char(c: char) -> (r: bool)
    ensures
        r == is_word(c),
        (c as u32) < 0x80 ==> (r <==> is_ascii_word(c)),
{
    regex_syntax::is_word_character(c)
}

pub fn is_digit_char(c: char) -> (r: bool)
    ensures
        r == is_digit(c),
{
    let v = c as u32;
    0x30 <= v && v <= 0x39
}

/// First index at or after `i` that is not whitespace (or the length).
pub open spec fn skip_ws(s: Seq<char>, i: int) -> int
    decreases s.len() - i,
{
    if i < 0 || i >= s.len() {
        if i < 0 {
            0
        } else {
            i
        }
    } else if is_ws(s[i]) {
        skip_ws(s, i + 1)
    } else {
        i
    }
}

/// End of the run of word characters starting at `i`.
pub open spec fn word_end(s: Seq<char>, i: int) -> int
    decreases s.len() - i,
{
    if i < 0 || i >= s.len() {
        if i < 0 {
            0
        } else {
            i
        }
    } else if is_word(s[i]) {
        word_end(s, i + 1)
    } else {
        i
    }
}

/// End of the run of digits starting at `i`.
pub open spec fn digits_end(s: Seq<char>, i: int) -> int
    decreases s.len() - i,
{
    if i < 0 || i >= s.len() {
        if i < 0 {
            0
        } else {
            i
        }
    } else if is_digit(s[i]) {
        digits_end(s, i + 1)
    } else {
        i
    }
}

pub proof fn lemma_skip_ws(s: Seq<char>, i: int)
    requires
        0 <= i <= s.len(),
    ensures
        i <= skip_ws(s, i) <= s.len(),
        skip_ws(s, i) < s.len() ==> !is_ws(s[skip_ws(s, i)]),
        forall|j: int| i <= j < skip_ws(s, i) ==> is_ws(#[trigger] s[j]),
    decreases s.len() - i,
{
    if i < s.len() && is_ws(s[i]) {
        lemma_skip_ws(s, i + 1);
    }
}

pub proof fn lemma_word_end(s: Seq<char>, i: int)
    requires
        0 <= i <= s.len(),
    ensures
        i <= word_end(s, i) <= s.len(),
        word_end(s, i) < s.len() ==> !is_word(s[word_end(s, i)]),
        forall|j: int| i <= j < word_end(s, i) ==> is_word(#[trigger] s[j]),
    decreases s.len() - i,
{
    if i < s.len() && is_word(s[i]) {
        lemma_word_end(s, i + 1);
    }
}

pub proof fn lemma_digits_end(s: Seq<char>, i: int)
    requires
        0 <= i <= s.len(),
    ensures
        i <= digits_end(s, i) <= s.len(),
        digits_end(s, i) < s.len() ==> !is_digit(s[digits_end(s, i)]),
        forall|j: int| i <= j < digits_end(s, i) ==> is_digit(#[trigger] s[j]),
    decreases s.len() - i,
{
    if i < s.len() && is_digit(s[i]) {
        lemma_digits_end(s, i + 1);
    }
}

/// Skips whitespace from `i`.
pub fn skip_ws_at(s: &[char], i: usize) -> (r: usize)
    requires
        i <= s@.len(),
    ensures
        r == skip_ws(s@, i as int),
{
    let mut j = i;
    while j < s.len() && is_ws_char(s[j])
        invariant
            i <= j <= s@.len(),
            skip_ws(s@, i as int) == skip_ws(s@, j as int),
        decreases s@.len() - j,
    {
        j = j + 1;
    }
    j
}

/// Skips word characters from `i`.
pub fn word_end_at(s: &[char], i: usize) -> (r: usize)
    requires
        i <= s@.len(),
    ensures
        r == word_end(s@, i as int),
{
    let mut j = i;
    while j < s.len() && is_word_char(s[j])
        invariant
            i <= j <= s@.len(),
            word_end(s@, i as int) == word_end(s@, j as int),
        decreases s@.len() - j,
    {
        j = j + 1;
    }
    j
}

/// Skips digits from `i`.
pub fn digits_end_at(s: &[char], i: usize) -> (r: usize)
    requires
        i <= s@.len(),
    ensures
        r == digits_end(s@, i as int),
{
    let mut j = i;
    while j < s.len() && is_digit_char(s[j])
        invariant
            i <= j <= s@.len(),
            digits_end(s@, i as int) == digits_end(s@, j as int),
        decreases s@.len() - j,
    {
        j = j + 1;
    }
    j
}

/// `kw` occurs in `s` at `i`.
pub open spec fn occurs_at(s: Seq<char>, i: int, kw: Seq<char>) -> bool {
    0 <= i && i + kw.len() <= s.len() && s.subrange(i, i + kw.len()) == kw
}

pub fn occurs_at_exec(s: &[char], i: usize, kw: &[char]) -> (r: bool)
    ensures
        r == occurs_at(s@, i as int, kw@),
{
    if i > s.len() || kw.len() > s.len() - i {
        return false;
    }
    let mut k: usize = 0;
    while k < kw.len()
        invariant
            i + kw@.len() <= s@.len(),
            s@.len() <= usize::MAX,
            k <= kw@.len(),
            forall|t: int| 0 <= t < k ==> s@[i + t] == kw@[t],
        decreases kw@.len() - k,
    {
        if s[i + k] != kw[k] {
            proof {
                assert(s@.subrange(i as int, i + kw@.len())[k as int] != kw@[k as int]);
            }
            return false;
        }
        k = k + 1;
    }
    proof {
        assert(s@.subrange(i as int, i + kw@.len()) =~= kw@);
    }
    true
}

// ---------------------------------------------------------------------------
// Numbers

/// Value of the decimal digit `c`.
pub open spec fn digit_value(c: char) -> int {
    (c as u32) - 0x30
}

/// Value of the decimal digits `w`.
pub open spec fn digits_value(w: Seq<char>) -> int
    decreases w.len(),
{
    if w.len() == 0 {
        0
    } else {
        digits_value(w.drop_last()) * 10 + digit_value(w.last())
    }
}

/// Every character of `w` is a digit.
pub open spec fn all_digits(w: Seq<char>) -> bool {
    forall|j: int| 0 <= j < w.len() ==> is_digit(#[trigger] w[j])
}

/// `w` read as an unsigned decimal number not above `max`: `None` when it is
/// empty, holds a non-digit, or exceeds `max`.
pub open spec fn parse_decimal(w: Seq<char>, max: int) -> Option<int> {
    if w.len() > 0 && all_digits(w) && digits_value(w) <= max {
        Some(digits_value(w))
    } else {
        None
    }
}

proof fn lemma_digits_value_monotone(w: Seq<char>, i: int, j: int)
    requires
        all_digits(w),
        0 <= i <= j <= w.len(),
    ensures
        0 <= digits_value(w.take(i)) <= digits_value(w.take(j)),
    decreases j - i,
{
    if i < j {
        lemma_digits_value_monotone(w, i, j - 1);
        assert(w.take(j).drop_last() =~= w.take(j - 1));
        assert(is_digit(w[j - 1]));
        assert(digits_value(w.take(j - 1)) >= 0);
    } else {
        lemma_digits_value_nonneg(w.take(i));
    }
}

proof fn lemma_digits_value_nonneg(w: Seq<char>)
    requires
        all_digits(w),
    ensures
        digits_value(w) >= 0,
    decreases w.len(),
{
    if w.len() > 0 {
        assert(is_digit(w.last()));
        lemma_digits_value_nonneg(w.drop_last());
    }
}

/// Reads `w` as an unsigned decimal number not above `max`.
pub fn parse_decimal_exec(w: &[char], max: u32) -> (r: Option<u32>)
    ensures
        match r {
            Some(v) => parse_decimal(w@, max as int) == Some(v as int),
            None => parse_decimal(w@, max as int) is None,
        },
{
    if w.len() == 0 {
        return None;
    }
    let mut acc: u32 = 0;
    let mut i: usize = 0;
    while i < w.len()
        invariant
            0 < w@.len(),
            i <= w@.len(),
            forall|j: int| 0 <= j < i ==> is_digit(#[trigger] w@[j]),
            acc as int == digits_value(w@.take(i as int)),
            acc <= max,
        decreases w@.len() - i,
    {
        let c = w[i];
        if !is_digit_char(c) {
            return None;
        }
        let d = (c as u32) - 0x30;
        proof {
            assert(w@.take(i + 1).drop_last() =~= w@.take(i as int));
        }
        if d > max || acc > (max - d) / 10 {
            proof {
                assert(acc * 10 + d > max) by (nonlinear_arith)
                    requires
                        d > max || acc > (max - d) / 10,
                        acc >= 0,
                        d >= 0,
                ;
                if all_digits(w@) {
                    lemma_digits_value_monotone(w@, i + 1, w@.len() as int);
                    assert(w@.take(w@.len() as int) =~= w@);
                }
            }
            return None;
        }
        proof {
            assert(acc * 10 + d <= max) by (nonlinear_arith)
                requires
                    acc <= (max - d) / 10,
                    d <= max,
            ;
        }
        acc = acc * 10 + d;
        i = i + 1;
    }
    proof {
        assert(w@.take(w@.len() as int) =~= w@);
    }
    Some(acc)
}

// ---------------------------------------------------------------------------
// Parenthesized word lists: `\s*\(\s*(\w+(\s*,\s*\w+)*)\s*\)\s*` to the end

/// Reads the words of a comma-separated list starting with a word at `i`:
/// the words and the position after the whitespace that follows the last one.
pub open spec fn parse_list(p: Seq<char>, i: int) -> Option<(Seq<Seq<char>>, int)>
    decreases p.len() - i,
{
    if i < 0 || i >= p.len() {
        None
    } else {
        let e = word_end(p, i);
        if e <= i {
            None
        } else {
            let j = skip_ws(p, e);
            if 0 <= j < p.len() && p[j] == ',' {
                proof {
                    lemma_word_end(p, i);
                    lemma_skip_ws(p, e);
                    lemma_skip_ws(p, j + 1);
                }
                match parse_list(p, skip_ws(p, j + 1)) {
                    Some((ws, k)) => Some((seq![p.subrange(i, e)] + ws, k)),
                    None => None,
                }
            } else {
                Some((seq![p.subrange(i, e)], j))
            }
        }
    }
}

/// The words of a parenthesized list that starts at `i` and ends `p` (see
/// the module documentation for its grammar), or `None`.
pub open spec fn paren_list(p: Seq<char>, i: int) -> Option<Seq<Seq<char>>> {
    let a = skip_ws(p, i);
    if a < 0 || a >= p.len() || p[a] != '(' {
        None
    } else {
        match parse_list(p, skip_ws(p, a + 1)) {
            Some((ws, j)) => if 0 <= j < p.len() && p[j] == ')' && skip_ws(p, j + 1) == p.len() {
                Some(ws)
            } else {
                None
            },
            None => None,
        }
    }
}

/// Copies `s[from..to]`.
pub fn copy_range(s: &[char], from: usize, to: usize) -> (r: Vec<char>)
    requires
        from <= to <= s@.len(),
    ensures
        r@ == s@.subrange(from as int, to as int),
{
    let mut r: Vec<char> = Vec::new();
    let mut k = from;
    while k < to
        invariant
            from <= k <= to <= s@.len(),
            r@ == s@.subrange(from as int, k as int),
        decreases to - k,
    {
        r.push(s[k]);
        proof {
            assert(r@ =~= s@.subrange(from as int, k + 1));
        }
        k = k + 1;
    }
    r
}

/// Reads a comma-separated word list starting at `i` (see `parse_list`).
fn parse_list_exec(p: &[char], i: usize) -> (r: Option<(Vec<Vec<char>>, usize)>)
    requires
        i <= p@.len(),
    ensures
        match r {
            Some((ws, j)) => parse_list(p@, i as int) matches Some((sw, sj)) && sj == j && sw
                == ws@.map_values(|w: Vec<char>| w@),
            None => parse_list(p@, i as int) is None,
        },
    decreases p@.len() - i,
{
    if i >= p.len() {
        return None;
    }
    let e = word_end_at(p, i);
    proof {
        lemma_word_end(p@, i as int);
    }
    if e <= i {
        return None;
    }
    let word = copy_range(p, i, e);
    let j = skip_ws_at(p, e);
    proof {
        lemma_skip_ws(p@, e as int);
    }
    if j < p.len() && p[j] == ',' {
        let k = skip_ws_at(p, j + 1);
        proof {
            lemma_skip_ws(p@, j + 1);
        }
        match parse_list_exec(p, k) {
            Some((rest, end)) => {
                let mut words: Vec<Vec<char>> = Vec::new();
                words.push(word);
                let mut t: usize = 0;
                let ghost rest_view = rest@.map_values(|w: Vec<char>| w@);
                while t < rest.len()
                    invariant
                        t <= rest@.len(),
                        rest_view == rest@.map_values(|w: Vec<char>| w@),
                        words@.len() == t + 1,
                        words@[0]@ == p@.subrange(i as int, e as int),
                        forall|q: int| 0 <= q < t ==> (#[trigger] words@[q + 1])@ == rest@[q]@,
                    decreases rest@.len() - t,
                {
                    let w = copy_range(rest[t].as_slice(), 0, rest[t].len());
                    proof {
                        assert(w@ =~= rest@[t as int]@);
                    }
                    words.push(w);
                    t = t + 1;
                }
                proof {
                    let lhs = words@.map_values(|w: Vec<char>| w@);
                    let rhs = seq![p@.subrange(i as int, e as int)] + rest_view;
                    assert(lhs.len() == rhs.len());
                    assert forall|q: int| 0 <= q < lhs.len() implies lhs[q] == rhs[q] by {
                        if q > 0 {
                            assert(words@[(q - 1) + 1]@ == rest@[q - 1]@);
                        }
                    }
                    assert(lhs =~= rhs);
                }
                Some((words, end))
            },
            None => None,
        }
    } else {
        let mut words: Vec<Vec<char>> = Vec::new();
        words.push(word);
        proof {
            assert(words@.map_values(|w: Vec<char>| w@) =~= seq![p@.subrange(i as int, e as int)]);
        }
        Some((words, j))
    }
}

/// Reads a parenthesized word list starting at `i` and ending `p`.
pub fn paren_list_exec(p: &[char], i: usize) -> (r: Option<Vec<Vec<char>>>)
    requires
        i <= p@.len(),
    ensures
        match r {
            Some(ws) => paren_list(p@, i as int) == Some(ws@.map_values(|w: Vec<char>| w@)),
            None => paren_list(p@, i as int) is None,
        },
{
    let a = skip_ws_at(p, i);
    proof {
        lemma_skip_ws(p@, i as int);
    }
    if a >= p.len() || p[a] != '(' {
        return None;
    }
    let b = skip_ws_at(p, a + 1);
    proof {
        lemma_skip_ws(p@, a + 1);
    }
    match parse_list_exec(p, b) {
        Some((ws, j)) => {
            if j < p.len() && p[j] == ')' && skip_ws_at(p, j + 1) == p.len() {
                Some(ws)
            } else {
                None
            }
        },
        None => None,
    }
}

// ---------------------------------------------------------------------------
// Lines

/// Index of the first `'\n'` at or after `i` (or the length).
pub open spec fn newline_index(s: Seq<char>, i: int) -> int
    decreases s.len() - i,
{
    if i < 0 || i >= s.len() {
        if i < 0 {
            0
        } else {
            i
        }
    } else if s[i] == '\n' {
        i
    } else {
        newline_index(s, i + 1)
    }
}

/// A line without its line ending: one trailing `'\r'` is dropped.
pub open spec fn strip_cr(l: Seq<char>) -> Seq<char> {
    if l.len() > 0 && l.last() == '\r' {
        l.drop_last()
    } else {
        l
    }
}

/// The lines of `s` from `i`, as `str::lines` gives them: split at `'\n'`,
/// a `'\r'` before a `'\n'` dropped, and no empty line after a final `'\n'`.
pub open spec fn lines_from(s: Seq<char>, i: int) -> Seq<Seq<char>>
    decreases s.len() - i,
{
    if i < 0 || i >= s.len() {
        Seq::empty()
    } else {
        let k = newline_index(s, i);
        proof {
            lemma_newline_index(s, i);
        }
        if k >= s.len() {
            seq![s.subrange(i, s.len() as int)]
        } else {
            seq![strip_cr(s.subrange(i, k))] + lines_from(s, k + 1)
        }
    }
}

pub proof fn lemma_newline_index(s: Seq<char>, i: int)
    requires
        0 <= i <= s.len(),
    ensures
        i <= newline_index(s, i) <= s.len(),
        newline_index(s, i) < s.len() ==> s[newline_index(s, i)] == '\n',
    decreases s.len() - i,
{
    if i < s.len() && s[i] != '\n' {
        lemma_newline_index(s, i + 1);
    }
}

/// Splits `s` into lines (see `lines_from`).
pub fn split_lines(s: &[char]) -> (r: Vec<Vec<char>>)
    ensures
        r@.map_values(|l: Vec<char>| l@) == lines_from(s@, 0),
{
    let mut lines: Vec<Vec<char>> = Vec::new();
    let mut i: usize = 0;
    let ghost mut done: Seq<Seq<char>> = Seq::empty();
    while i < s.len()
        invariant
            i <= s@.len(),
            lines@.map_values(|l: Vec<char>| l@) == done,
            lines_from(s@, 0) == done + lines_from(s@, i as int),
        decreases s@.len() - i,
    {
        let mut k = i;
        while k < s.len() && s[k] != '\n'
            invariant
                i <= k <= s@.len(),
                newline_index(s@, i as int) == newline_index(s@, k as int),
            decreases s@.len() - k,
        {
            k = k + 1;
        }
        proof {
            lemma_newline_index(s@, i as int);
        }
        let end = if k < s.len() && k > i && s[k - 1] == '\r' {
            k - 1
        } else {
            k
        };
        let line = copy_range(s, i, end);
        proof {
            if k < s@.len() {
                assert(line@ =~= strip_cr(s@.subrange(i as int, k as int)));
                assert(done + lines_from(s@, i as int) =~= done.push(line@) + lines_from(
                    s@,
                    k + 1,
                ));
            } else {
                assert(line@ =~= s@.subrange(i as int, s@.len() as int));
                assert(lines_from(s@, k as int) =~= Seq::<Seq<char>>::empty());
            }
            done = done.push(line@);
        }
        lines.push(line);
        proof {
            assert(lines@.map_values(|l: Vec<char>| l@) =~= done);
        }
        if k < s.len() {
            i = k + 1;
        } else {
            i = k;
            proof {
                assert(done + Seq::<Seq<char>>::empty() =~= done);
            }
        }
    }
    proof {
        assert(done + Seq::<Seq<char>>::empty() =~= done);
    }
    lines
}

// ---------------------------------------------------------------------------
// Decimal output

/// The character of the digit `d` (0 to 9).
pub open spec fn digit_char(d: int) -> char {
    (0x30 + d) as char
}

/// Decimal digits of `n` (at least one digit).
pub open spec fn decimal_digits(n: nat) -> Seq<char>
    decreases n,
{
    if n < 10 {
        seq![digit_char(n as int)]
    } else {
        decimal_digits(n / 10).push(digit_char((n % 10) as int))
    }
}

/// `n` in decimal, with a `-` sign when negative (as `{}` formats integers).
pub open spec fn decimal(n: int) -> Seq<char> {
    if n < 0 {
        seq!['-'] + decimal_digits((-n) as nat)
    } else {
        decimal_digits(n as nat)
    }
}

fn push_digits(out: &mut Vec<char>, n: u64)
    ensures
        final(out)@ == old(out)@ + decimal_digits(n as nat),
    decreases n,
{
    if n >= 10 {
        push_digits(out, n / 10);
    }
    let d = n % 10;
    let c = if d == 0 {
        '0'
    } else if d == 1 {
        '1'
    } else if d == 2 {
        '2'
    } else if d == 3 {
        '3'
    } else if d == 4 {
        '4'
    } else if d == 5 {
        '5'
    } else if d == 6 {
        '6'
    } else if d == 7 {
        '7'
    } else if d == 8 {
        '8'
    } else {
        '9'
    };
    proof {
        assert(c == digit_char((n % 10) as int));
    }
    out.push(c);
    proof {
        if n >= 10 {
            assert(final(out)@ =~= old(out)@ + decimal_digits(n as nat));
        } else {
            assert(final(out)@ =~= old(out)@ + decimal_digits(n as nat));
        }
    }
}

/// Appends `n` in decimal.
pub fn push_decimal(out: &mut Vec<char>, n: i64)
    requires
        n > i64::MIN,
    ensures
        final(out)@ == old(out)@ + decimal(n as int),
{
    if n < 0 {
        out.push('-');
        push_digits(out, (-n) as u64);
        proof {
            assert(final(out)@ =~= old(out)@ + decimal(n as int));
        }
    } else {
        push_digits(out, n as u64);
    }
}

/// Appends the characters of `s`.
pub fn push_chars(out: &mut Vec<char>, s: &[char])
    ensures
        final(out)@ == old(out)@ + s@,
{
    let mut k: usize = 0;
    while k < s.len()
        invariant
            k <= s@.len(),
            out@ == old(out)@ + s@.take(k as int),
        decreases s@.len() - k,
    {
        out.push(s[k]);
        proof {
            assert(s@.take(k + 1) =~= s@.take(k as int).push(s@[k as int]));
        }
        k = k + 1;
    }
    proof {
        assert(s@.take(s@.len() as int) =~= s@);
    }
}

/// `str::chars`, collected: the characters of `s`.
#[verifier::external_body]
pub(crate) fn chars_of(s: &str) -> (r: Vec<char>)
    ensures
        r@ == s@,
{
    s.chars().collect()
}

/// `String::from_iter` over characters: the string of the characters `c`.
#[verifier::external_body]
pub(crate) fn string_of(c: &[char]) -> (r: String)
    ensures
        r@ == c@,
{
    c.iter().collect()
}

} // verus!
