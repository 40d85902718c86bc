//! Scripts that `sqlparser` can be handed without risk of a panic.
//!
//! `sqlparser` panics, instead of returning an error, in five places:
//! - `TOP` followed by a number that does not parse as a `u64`;
//! - a table option `AUTO_INCREMENT [=]` followed by a number that does not parse as
//!   a `u32`;
//! - `FLUSH ... FOR CHANNEL` followed by something that is not an object name;
//! - `GRANTED BY` (in `GRANT` and `REVOKE`) followed by something that is not an
//!   identifier;
//! - in the MySQL dialect, a `REPLACE` statement that is not a valid `INSERT`.
//!
//! The test below looks at each place where one of those keywords can be read and
//! refuses the script unless what follows (or, for `REPLACE`, what comes before) shows
//! that the panic cannot happen. Where the text alone does not settle it (a comment
//! in between, say) it refuses. Anywhere else, these words are ordinary names.

use vstd::prelude::*;
use crate::sqlmodel::SqlDialect;
use crate::text::{
    ascii_lower, chars_of, digit_value, digits_value, eq_ignore_ascii_case, is_digit,
    lemma_digits_value_grows,
};

verus! {

/// A character that continues a word in every dialect: an ASCII letter or digit, or `_`.
pub open spec fn is_word_char(c: char) -> bool {
    ('a' <= c && c <= 'z') || ('A' <= c && c <= 'Z') || ('0' <= c && c <= '9') || c == '_'
}

/// A character that starts a word: an ASCII letter or `_`.
pub open spec fn is_word_start(c: char) -> bool {
    ('a' <= c && c <= 'z') || ('A' <= c && c <= 'Z') || c == '_'
}

/// A character that, standing just before a keyword's letters, always joins them
/// into a longer word: an ASCII letter or `_`, except those that can end a
/// hexadecimal literal (`0x` and hex digits).
pub open spec fn joins_word(c: char) -> bool {
    ('g' <= c && c <= 'z' && c != 'x') || ('G' <= c && c <= 'Z' && c != 'X') || c == '_'
}

/// Character `c` of a word stands for the upper-case letter `k` of a keyword: equal up
/// to ASCII case, or the dotless `ı` for `I` or the long `ſ` for `S`, whose upper case
/// is that ASCII letter.
pub open spec fn letter_matches(c: char, k: char) -> bool {
    ascii_lower(c) == ascii_lower(k) || (c == '\u{131}' && k == 'I') || (c == '\u{17f}' && k == 'S')
}

/// The keyword `k` (upper case) can be read at position `i` of `s`.
pub open spec fn keyword_at(s: Seq<char>, i: int, k: Seq<char>) -> bool {
    &&& 0 <= i && i + k.len() <= s.len()
    &&& forall|m: int| 0 <= m < k.len() ==> letter_matches(#[trigger] s[i + m], k[m])
    &&& (i == 0 || !joins_word(s[i - 1]))
    &&& (i + k.len() == s.len() || !is_word_char(s[i + k.len()]))
}

pub open spec fn is_blank(c: char) -> bool {
    c == ' ' || c == '\t' || c == '\n' || c == '\r'
}

/// The first position at or after `j` that does not hold a blank (the length when none).
pub open spec fn first_nonblank(s: Seq<char>, j: int) -> int
    decreases s.len() - j,
{
    if j < 0 || j >= s.len() {
        s.len() as int
    } else if is_blank(s[j]) {
        first_nonblank(s, j + 1)
    } else {
        j
    }
}

/// The end of the word characters that start at `k`.
pub open spec fn word_end(s: Seq<char>, k: int) -> int
    decreases s.len() - k,
{
    if k < 0 || k >= s.len() || !is_word_char(s[k]) {
        k
    } else {
        word_end(s, k + 1)
    }
}

/// The end of the digits that start at `k`.
pub open spec fn digits_end(s: Seq<char>, k: int) -> int
    decreases s.len() - k,
{
    if k < 0 || k >= s.len() || !is_digit(s[k]) {
        k
    } else {
        digits_end(s, k + 1)
    }
}

/// A character after which no number token can follow in the same token stream
/// position: it ends a statement or a list, or opens a parenthesis.
pub open spec fn is_closing_mark(c: char) -> bool {
    c == ',' || c == ')' || c == ';' || c == '('
}

/// The digits at `k` make a number of at most `max`, not continued by a fraction or
/// an exponent.
pub open spec fn number_fits(s: Seq<char>, k: int, max: nat) -> bool {
    let e = digits_end(s, k);
    &&& digits_value(s.subrange(k, e)) <= max
    &&& (e >= s.len() || !(s[e] == '.' || s[e] == 'e' || s[e] == 'E'))
}

/// Past the blanks from `j`, no number that does not fit in `max` can come: the
/// script ends, or a word, a closing mark or a fitting number comes.
pub open spec fn no_large_number_follows(s: Seq<char>, j: int, max: nat) -> bool {
    let k = first_nonblank(s, j);
    ||| k >= s.len()
    ||| is_word_start(s[k])
    ||| is_closing_mark(s[k])
    ||| (is_digit(s[k]) && number_fits(s, k, max))
}

/// After `AUTO_INCREMENT` and an optional `=`, no number too large for a `u32` comes.
pub open spec fn auto_increment_safe(s: Seq<char>, j: int) -> bool {
    let k = first_nonblank(s, j);
    if k < s.len() && s[k] == '=' {
        no_large_number_follows(s, k + 1, u32::MAX as nat)
    } else {
        no_large_number_follows(s, j, u32::MAX as nat)
    }
}

/// Past the blanks from `j`, a plain word comes, followed by a blank, a closing mark or
/// the end of the script: it reads as a one-part name.
pub open spec fn plain_word_follows(s: Seq<char>, j: int) -> bool {
    let k = first_nonblank(s, j);
    let e = word_end(s, k);
    &&& k < s.len()
    &&& is_word_start(s[k])
    &&& (e >= s.len() || is_blank(s[e]) || is_closing_mark(s[e]))
}

/// After `GRANTED`: nothing, a closing mark, a word other than `BY`, or `BY` and a
/// plain name.
pub open spec fn granted_safe(s: Seq<char>, j: int) -> bool {
    let k = first_nonblank(s, j);
    if k >= s.len() || is_closing_mark(s[k]) {
        true
    } else if is_word_start(s[k]) {
        let e = word_end(s, k);
        if eq_ignore_ascii_case(s.subrange(k, e), "BY"@) { plain_word_follows(s, e) } else { true }
    } else {
        false
    }
}

/// The last position before `i` that does not hold a blank (-1 when none).
pub open spec fn prev_nonblank(s: Seq<char>, i: int) -> int
    decreases i,
{
    if i <= 0 || i > s.len() {
        -1
    } else if is_blank(s[i - 1]) {
        prev_nonblank(s, i - 1)
    } else {
        i - 1
    }
}

/// From `m` back to the start of its line, no `#` or `-` that could open a comment.
pub open spec fn clean_line_back(s: Seq<char>, m: int) -> bool
    decreases m + 1,
{
    if m < 0 || m >= s.len() {
        true
    } else if s[m] == '\n' || s[m] == '\r' {
        true
    } else if s[m] == '#' || s[m] == '-' {
        false
    } else {
        clean_line_back(s, m - 1)
    }
}

/// A character after which a token cannot start a statement: the end of a word or a
/// number, or a punctuation mark inside a statement.
pub open spec fn inside_statement_mark(c: char) -> bool {
    is_word_char(c) || c == '(' || c == ',' || c == ')' || c == '=' || c == '.'
}

/// `REPLACE` at `i` does not start a statement: the text before it ends with a word,
/// a number or a punctuation mark inside a statement, on a line without a comment.
pub open spec fn replace_safe(s: Seq<char>, i: int) -> bool {
    let p = prev_nonblank(s, i);
    &&& p >= 0
    &&& inside_statement_mark(s[p])
    &&& clean_line_back(s, p)
}

/// Position `i` of `s` starts something that can make `sqlparser` panic.
pub open spec fn risky_at(d: SqlDialect, s: Seq<char>, i: int) -> bool {
    ||| (keyword_at(s, i, "TOP"@) && !no_large_number_follows(s, i + "TOP"@.len(), u64::MAX as nat))
    ||| (keyword_at(s, i, "AUTO_INCREMENT"@) && !auto_increment_safe(s, i + "AUTO_INCREMENT"@.len()))
    ||| (keyword_at(s, i, "CHANNEL"@) && !plain_word_follows(s, i + "CHANNEL"@.len()))
    ||| (keyword_at(s, i, "GRANTED"@) && !granted_safe(s, i + "GRANTED"@.len()))
    ||| (d is MySql && keyword_at(s, i, "REPLACE"@) && !replace_safe(s, i))
}

/// `sql` can be handed to `sqlparser` in dialect `d`.
pub open spec fn spec_sqlparser_safe(d: SqlDialect, sql: Seq<char>) -> bool {
    forall|i: int| 0 <= i < sql.len() ==> !#[trigger] risky_at(d, sql, i)
}

// ---------------------------------------------------------------------------
// The test

fn is_word_char_exec(c: char) -> (r: bool)
    ensures
        r == is_word_char(c),
{
    ('a' <= c && c <= 'z') || ('A' <= c && c <= 'Z') || ('0' <= c && c <= '9') || c == '_'
}

fn is_word_start_exec(c: char) -> (r: bool)
    ensures
        r == is_word_start(c),
{
    ('a' <= c && c <= 'z') || ('A' <= c && c <= 'Z') || c == '_'
}

fn joins_word_exec(c: char) -> (r: bool)
    ensures
        r == joins_word(c),
{
    ('g' <= c && c <= 'z' && c != 'x') || ('G' <= c && c <= 'Z' && c != 'X') || c == '_'
}

fn is_blank_exec(c: char) -> (r: bool)
    ensures
        r == is_blank(c),
{
    c == ' ' || c == '\t' || c == '\n' || c == '\r'
}

fn is_closing_mark_exec(c: char) -> (r: bool)
    ensures
        r == is_closing_mark(c),
{
    c == ',' || c == ')' || c == ';' || c == '('
}

fn letter_matches_exec(c: char, k: char) -> (r: bool)
    ensures
        r == letter_matches(c, k),
{
    let lc: u32 = if 'A' <= c && c <= 'Z' { (c as u32) + 32 } else { c as u32 };
    let lk: u32 = if 'A' <= k && k <= 'Z' { (k as u32) + 32 } else { k as u32 };
    lc == lk || (c == '\u{131}' && k == 'I') || (c == '\u{17f}' && k == 'S')
}

fn keyword_at_exec(s: &Vec<char>, i: usize, k: &Vec<char>) -> (r: bool)
    requires
        i <= s@.len(),
    ensures
        r == keyword_at(s@, i as int, k@),
{
    if k.len() > s.len() - i {
        return false;
    }
    let mut j: usize = 0;
    while j < k.len()
        invariant
            i + k@.len() <= s@.len(),
            s@.len() == s.len(),
            k@.len() == k.len(),
            j <= k@.len(),
            forall|m: int| 0 <= m < j ==> letter_matches(#[trigger] s@[i + m], k@[m]),
        decreases k@.len() - j,
    {
        let idx = i + j;
        if !letter_matches_exec(s[idx], k[j]) {
            assert(!letter_matches(s@[i + j], k@[j as int]));
            return false;
        }
        j = j + 1;
    }
    let left = i == 0 || !joins_word_exec(s[i - 1]);
    let end = i + k.len();
    let right = end == s.len() || !is_word_char_exec(s[end]);
    left && right
}

fn first_nonblank_exec(s: &Vec<char>, j: usize) -> (r: usize)
    requires
        j <= s@.len(),
    ensures
        r as int == first_nonblank(s@, j as int),
        r <= s@.len(),
{
    let mut k = j;
    while k < s.len() && is_blank_exec(s[k])
        invariant
            j <= k <= s@.len(),
            first_nonblank(s@, k as int) == first_nonblank(s@, j as int),
        decreases s@.len() - k,
    {
        k = k + 1;
    }
    k
}

fn word_end_exec(s: &Vec<char>, k: usize) -> (r: usize)
    requires
        k <= s@.len(),
    ensures
        r as int == word_end(s@, k as int),
        k <= r <= s@.len(),
{
    let mut e = k;
    while e < s.len() && is_word_char_exec(s[e])
        invariant
            k <= e <= s@.len(),
            word_end(s@, e as int) == word_end(s@, k as int),
        decreases s@.len() - e,
    {
        e = e + 1;
    }
    e
}

fn number_fits_exec(s: &Vec<char>, k: usize, max: u64) -> (r: bool)
    requires
        k <= s@.len(),
    ensures
        r == number_fits(s@, k as int, max as nat),
{
    let n = s.len();
    let mut e = k;
    let mut v: u128 = 0;
    let mut big = false;
    proof {
        assert(s@.subrange(k as int, k as int) =~= Seq::<char>::empty());
    }
    while e < n && '0' <= s[e] && s[e] <= '9'
        invariant
            n == s@.len(),
            k <= e <= n,
            digits_end(s@, e as int) == digits_end(s@, k as int),
            big ==> digits_value(s@.subrange(k as int, e as int)) > max,
            !big ==> v == digits_value(s@.subrange(k as int, e as int)),
            !big ==> v <= max,
        decreases n - e,
    {
        let d: u128 = ((s[e] as u32) - ('0' as u32)) as u128;
        proof {
            lemma_digits_value_grows(s@.subrange(k as int, e as int), s@[e as int]);
            assert(s@.subrange(k as int, e as int).push(s@[e as int]) =~= s@.subrange(k as int, e + 1));
        }
        if !big {
            v = v * 10 + d;
            if v > max as u128 {
                big = true;
            }
        }
        e = e + 1;
    }
    let clean = e >= n || !(s[e] == '.' || s[e] == 'e' || s[e] == 'E');
    !big && clean
}

fn no_large_number_follows_exec(s: &Vec<char>, j: usize, max: u64) -> (r: bool)
    requires
        j <= s@.len(),
    ensures
        r == no_large_number_follows(s@, j as int, max as nat),
{
    let k = first_nonblank_exec(s, j);
    if k >= s.len() {
        return true;
    }
    let c = s[k];
    is_word_start_exec(c) || is_closing_mark_exec(c) || (('0' <= c && c <= '9') && number_fits_exec(s, k, max))
}

fn auto_increment_safe_exec(s: &Vec<char>, j: usize) -> (r: bool)
    requires
        j <= s@.len(),
    ensures
        r == auto_increment_safe(s@, j as int),
{
    let k = first_nonblank_exec(s, j);
    if k < s.len() && s[k] == '=' {
        no_large_number_follows_exec(s, k + 1, 4294967295)
    } else {
        no_large_number_follows_exec(s, j, 4294967295)
    }
}

fn plain_word_follows_exec(s: &Vec<char>, j: usize) -> (r: bool)
    requires
        j <= s@.len(),
    ensures
        r == plain_word_follows(s@, j as int),
{
    let k = first_nonblank_exec(s, j);
    if k >= s.len() || !is_word_start_exec(s[k]) {
        return false;
    }
    let e = word_end_exec(s, k);
    e >= s.len() || is_blank_exec(s[e]) || is_closing_mark_exec(s[e])
}

fn granted_safe_exec(s: &Vec<char>, j: usize) -> (r: bool)
    requires
        j <= s@.len(),
    ensures
        r == granted_safe(s@, j as int),
{
    let k = first_nonblank_exec(s, j);
    if k >= s.len() || is_closing_mark_exec(s[k]) {
        return true;
    }
    if !is_word_start_exec(s[k]) {
        return false;
    }
    let e = word_end_exec(s, k);
    let is_by = e - k == 2 && (s[k] == 'b' || s[k] == 'B') && (s[k + 1] == 'y' || s[k + 1] == 'Y');
    proof {
        reveal_strlit("BY");
        let sub = s@.subrange(k as int, e as int);
        if e - k == 2 {
            assert(sub[0] == s@[k as int]);
            assert(sub[1] == s@[k + 1]);
        }
        assert(is_by == eq_ignore_ascii_case(sub, "BY"@));
    }
    if is_by { plain_word_follows_exec(s, e) } else { true }
}

fn prev_nonblank_exec(s: &Vec<char>, i: usize) -> (r: Option<usize>)
    requires
        i <= s@.len(),
    ensures
        match r {
            Some(p) => p as int == prev_nonblank(s@, i as int) && p < i,
            None => prev_nonblank(s@, i as int) == -1,
        },
{
    let mut m = i;
    while m > 0 && is_blank_exec(s[m - 1])
        invariant
            m <= i <= s@.len(),
            prev_nonblank(s@, m as int) == prev_nonblank(s@, i as int),
        decreases m,
    {
        m = m - 1;
    }
    if m == 0 { None } else { Some(m - 1) }
}

fn clean_line_back_exec(s: &Vec<char>, p: usize) -> (r: bool)
    requires
        p < s@.len(),
    ensures
        r == clean_line_back(s@, p as int),
{
    let n = s.len();
    let mut m = p + 1;
    while m > 0 && s[m - 1] != '\n' && s[m - 1] != '\r' && s[m - 1] != '#' && s[m - 1] != '-'
        invariant
            m <= p + 1,
            p < s@.len(),
            clean_line_back(s@, m - 1) == clean_line_back(s@, p as int),
        decreases m,
    {
        m = m - 1;
    }
    if m == 0 {
        true
    } else {
        s[m - 1] == '\n' || s[m - 1] == '\r'
    }
}

fn replace_safe_exec(s: &Vec<char>, i: usize) -> (r: bool)
    requires
        i <= s@.len(),
    ensures
        r == replace_safe(s@, i as int),
{
    match prev_nonblank_exec(s, i) {
        Some(p) => {
            let c = s[p];
            (is_word_char_exec(c) || c == '(' || c == ',' || c == ')' || c == '=' || c == '.') && clean_line_back_exec(s, p)
        },
        None => false,
    }
}

/// Whether `sql` can be handed to `sqlparser` in dialect `d` without risk of a panic.
pub fn sqlparser_accepts_safely(d: SqlDialect, sql: &str) -> (r: bool)
    ensures
        r == spec_sqlparser_safe(d, sql@),
{
    let s = chars_of(sql);
    let top = chars_of("TOP");
    let auto = chars_of("AUTO_INCREMENT");
    let channel = chars_of("CHANNEL");
    let granted = chars_of("GRANTED");
    let replace = chars_of("REPLACE");
    for i in 0..s.len()
        invariant
            s@ == sql@,
            top@ == "TOP"@,
            auto@ == "AUTO_INCREMENT"@,
            channel@ == "CHANNEL"@,
            granted@ == "GRANTED"@,
            replace@ == "REPLACE"@,
            forall|m: int| 0 <= m < i ==> !#[trigger] risky_at(d, sql@, m),
    {
        let risky = (keyword_at_exec(&s, i, &top) && !no_large_number_follows_exec(&s, i + top.len(), 18446744073709551615))
            || (keyword_at_exec(&s, i, &auto) && !auto_increment_safe_exec(&s, i + auto.len()))
            || (keyword_at_exec(&s, i, &channel) && !plain_word_follows_exec(&s, i + channel.len()))
            || (keyword_at_exec(&s, i, &granted) && !granted_safe_exec(&s, i + granted.len()))
            || (d == SqlDialect::MySql && keyword_at_exec(&s, i, &replace) && !replace_safe_exec(&s, i));
        if risky {
            assert(risky_at(d, sql@, i as int));
            return false;
        }
    }
    true
}

} // verus!
