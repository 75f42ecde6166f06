//! Verified text helpers: character classes, case folding, trimming and
//! decimal formatting over `Seq<char>` views.

use vstd::math::abs;
use vstd::prelude::*;

verus! {

/// Relies on std's `String::push`: appends one character at the end.
pub assume_specification[ String::push ](s: &mut String, c: char)
    ensures
        final(s)@ == old(s)@.push(c),
;

// --- character classes -------------------------------------------------

pub open spec fn is_space_char(c: char) -> bool {
    c == ' ' || c == '\t' || c == '\n' || c == '\r'
}

pub fn space_char(c: char) -> (r: bool)
    ensures
        r == is_space_char(c),
{
    c == ' ' || c == '\t' || c == '\n' || c == '\r'
}

pub open spec fn is_ascii_upper(c: char) -> bool {
    'A' <= c && c <= 'Z'
}

pub fn ascii_upper(c: char) -> (r: bool)
    ensures
        r == is_ascii_upper(c),
{
    'A' <= c && c <= 'Z'
}

// --- case folding ------------------------------------------------------

/// Maps an ASCII upper-case letter to its lower-case form; leaves every
/// other character unchanged.
pub open spec fn lower_char(c: char) -> char {
    match c {
        'A' => 'a',
        'B' => 'b',
        'C' => 'c',
        'D' => 'd',
        'E' => 'e',
        'F' => 'f',
        'G' => 'g',
        'H' => 'h',
        'I' => 'i',
        'J' => 'j',
        'K' => 'k',
        'L' => 'l',
        'M' => 'm',
        'N' => 'n',
        'O' => 'o',
        'P' => 'p',
        'Q' => 'q',
        'R' => 'r',
        'S' => 's',
        'T' => 't',
        'U' => 'u',
        'V' => 'v',
        'W' => 'w',
        'X' => 'x',
        'Y' => 'y',
        'Z' => 'z',
        _ => c,
    }
}

/// Maps an ASCII lower-case letter to its upper-case form; leaves every
/// other character unchanged.
pub open spec fn upper_char(c: char) -> char {
    match c {
        'a' => 'A',
        'b' => 'B',
        'c' => 'C',
        'd' => 'D',
        'e' => 'E',
        'f' => 'F',
        'g' => 'G',
        'h' => 'H',
        'i' => 'I',
        'j' => 'J',
        'k' => 'K',
        'l' => 'L',
        'm' => 'M',
        'n' => 'N',
        'o' => 'O',
        'p' => 'P',
        'q' => 'Q',
        'r' => 'R',
        's' => 'S',
        't' => 'T',
        'u' => 'U',
        'v' => 'V',
        'w' => 'W',
        'x' => 'X',
        'y' => 'Y',
        'z' => 'Z',
        _ => c,
    }
}

pub fn lower_char_exec(c: char) -> (r: char)
    ensures
        r == lower_char(c),
{
    match c {
        'A' => 'a',
        'B' => 'b',
        'C' => 'c',
        'D' => 'd',
        'E' => 'e',
        'F' => 'f',
        'G' => 'g',
        'H' => 'h',
        'I' => 'i',
        'J' => 'j',
        'K' => 'k',
        'L' => 'l',
        'M' => 'm',
        'N' => 'n',
        'O' => 'o',
        'P' => 'p',
        'Q' => 'q',
        'R' => 'r',
        'S' => 's',
        'T' => 't',
        'U' => 'u',
        'V' => 'v',
        'W' => 'w',
        'X' => 'x',
        'Y' => 'y',
        'Z' => 'z',
        _ => c,
    }
}

pub fn upper_char_exec(c: char) -> (r: char)
    ensures
        r == upper_char(c),
{
    match c {
        'a' => 'A',
        'b' => 'B',
        'c' => 'C',
        'd' => 'D',
        'e' => 'E',
        'f' => 'F',
        'g' => 'G',
        'h' => 'H',
        'i' => 'I',
        'j' => 'J',
        'k' => 'K',
        'l' => 'L',
        'm' => 'M',
        'n' => 'N',
        'o' => 'O',
        'p' => 'P',
        'q' => 'Q',
        'r' => 'R',
        's' => 'S',
        't' => 'T',
        'u' => 'U',
        'v' => 'V',
        'w' => 'W',
        'x' => 'X',
        'y' => 'Y',
        'z' => 'Z',
        _ => c,
    }
}

/// Each character of `s`, ASCII-lower-cased.
pub open spec fn lower_seq(s: Seq<char>) -> Seq<char> {
    Seq::new(s.len(), |i: int| lower_char(s[i]))
}

/// Each character of `s`, ASCII-upper-cased.
pub open spec fn upper_seq(s: Seq<char>) -> Seq<char> {
    Seq::new(s.len(), |i: int| upper_char(s[i]))
}

/// ASCII-lower-cases a string.
pub fn lower_str(s: &str) -> (r: String)
    ensures
        r@ == lower_seq(s@),
{
    let len = s.unicode_len();
    let mut out = String::new();
    let mut i: usize = 0;
    while i < len
        invariant
            len == s@.len(),
            i <= len,
            out@.len() == i,
            forall|k: int| 0 <= k < i ==> out@[k] == lower_char(s@[k]),
        decreases len - i,
    {
        out.push(lower_char_exec(s.get_char(i)));
        i = i + 1;
    }
    assert(out@ =~= lower_seq(s@));
    out
}

/// ASCII-upper-cases a string.
pub fn upper_str(s: &str) -> (r: String)
    ensures
        r@ == upper_seq(s@),
{
    let len = s.unicode_len();
    let mut out = String::new();
    let mut i: usize = 0;
    while i < len
        invariant
            len == s@.len(),
            i <= len,
            out@.len() == i,
            forall|k: int| 0 <= k < i ==> out@[k] == upper_char(s@[k]),
        decreases len - i,
    {
        out.push(upper_char_exec(s.get_char(i)));
        i = i + 1;
    }
    assert(out@ =~= upper_seq(s@));
    out
}

// --- comparison and search ---------------------------------------------

/// Character-for-character string equality.
pub fn eq_str(a: &str, b: &str) -> (r: bool)
    ensures
        r == (a@ == b@),
{
    let alen = a.unicode_len();
    let blen = b.unicode_len();
    if alen != blen {
        return false;
    }
    let mut i: usize = 0;
    while i < alen
        invariant
            alen == a@.len(),
            alen == b@.len(),
            i <= alen,
            forall|k: int| 0 <= k < i ==> a@[k] == b@[k],
        decreases alen - i,
    {
        if a.get_char(i) != b.get_char(i) {
            return false;
        }
        i = i + 1;
    }
    assert(a@ =~= b@);
    true
}

/// String equality up to ASCII case.
pub fn eq_ignore_case(a: &str, b: &str) -> (r: bool)
    ensures
        r == (lower_seq(a@) == lower_seq(b@)),
{
    let alen = a.unicode_len();
    let blen = b.unicode_len();
    if alen != blen {
        assert(lower_seq(a@).len() != lower_seq(b@).len());
        return false;
    }
    let mut i: usize = 0;
    while i < alen
        invariant
            alen == a@.len(),
            alen == b@.len(),
            i <= alen,
            forall|k: int| 0 <= k < i ==> lower_char(a@[k]) == lower_char(b@[k]),
        decreases alen - i,
    {
        if lower_char_exec(a.get_char(i)) != lower_char_exec(b.get_char(i)) {
            assert(lower_seq(a@)[i as int] != lower_seq(b@)[i as int]);
            return false;
        }
        i = i + 1;
    }
    assert(lower_seq(a@) =~= lower_seq(b@));
    true
}

/// Whether `s` holds the character `c` anywhere.
pub fn contains_char(s: &str, c: char) -> (r: bool)
    ensures
        r == s@.contains(c),
{
    let len = s.unicode_len();
    let mut i: usize = 0;
    while i < len
        invariant
            len == s@.len(),
            i <= len,
            forall|k: int| 0 <= k < i ==> s@[k] != c,
        decreases len - i,
    {
        if s.get_char(i) == c {
            assert(s@[i as int] == c);
            return true;
        }
        i = i + 1;
    }
    assert(forall|k: int| 0 <= k < s@.len() ==> s@[k] != c);
    false
}

/// Whether some entry of `v` equals `x` character for character.
pub fn vec_contains_str(v: &Vec<String>, x: &str) -> (r: bool)
    ensures
        r == (exists|k: int| 0 <= k < v@.len() && v@[k]@ == x@),
{
    let mut i: usize = 0;
    while i < v.len()
        invariant
            i <= v@.len(),
            forall|k: int| 0 <= k < i ==> v@[k]@ != x@,
        decreases v@.len() - i,
    {
        if eq_str(v[i].as_str(), x) {
            assert(v@[i as int]@ == x@);
            return true;
        }
        i = i + 1;
    }
    false
}

/// First index of `c` in `s` at or after `j`; `-1` if none.
pub open spec fn char_idx_from(s: Seq<char>, c: char, j: int) -> int
    decreases s.len() - j when 0 <= j <= s.len()
{
    if j >= s.len() {
        -1
    } else if s[j] == c {
        j
    } else {
        char_idx_from(s, c, j + 1)
    }
}

pub open spec fn char_idx(s: Seq<char>, c: char) -> int {
    char_idx_from(s, c, 0)
}

proof fn lemma_char_idx(s: Seq<char>, c: char, j: int, i: int)
    requires
        0 <= j <= i <= s.len(),
        forall|k: int| j <= k < i ==> s[k] != c,
        i == s.len() || s[i] == c,
    ensures
        char_idx_from(s, c, j) == if i == s.len() {
            -1int
        } else {
            i
        },
    decreases i - j,
{
    if j < i {
        lemma_char_idx(s, c, j + 1, i);
    }
}

/// Position of the first occurrence of `c` in `s`, if any.
pub fn find_char(s: &str, c: char) -> (r: Option<usize>)
    ensures
        match r {
            Some(i) => char_idx(s@, c) == i && i < s@.len() && s@[i as int] == c,
            None => char_idx(s@, c) == -1,
        },
{
    let len = s.unicode_len();
    let mut i: usize = 0;
    while i < len
        invariant
            len == s@.len(),
            i <= len,
            forall|k: int| 0 <= k < i ==> s@[k] != c,
        decreases len - i,
    {
        if s.get_char(i) == c {
            proof {
                lemma_char_idx(s@, c, 0, i as int);
            }
            return Some(i);
        }
        i = i + 1;
    }
    proof {
        lemma_char_idx(s@, c, 0, s@.len() as int);
    }
    None
}

// --- tags ---------------------------------------------------------------

/// The tags after normalization: trimmed, blanks dropped, and later
/// case-insensitive repetitions dropped.
pub open spec fn norm_tags(tags: Seq<String>) -> Seq<Seq<char>>
    decreases tags.len(),
{
    if tags.len() == 0 {
        Seq::empty()
    } else {
        let rest = norm_tags(tags.drop_last());
        let t = trim_spec(tags.last()@);
        if t.len() == 0 {
            rest
        } else if exists|k: int| 0 <= k < rest.len() && lower_seq(#[trigger] rest[k]) == lower_seq(t) {
            rest
        } else {
            rest.push(t)
        }
    }
}

/// Whether one of `v` equals `x` up to ASCII case.
fn contains_ci(v: &Vec<String>, x: &str) -> (r: bool)
    ensures
        r == exists|k: int|
            0 <= k < v@.len() && lower_seq((#[trigger] v@[k])@) == lower_seq(x@),
{
    let mut i: usize = 0;
    while i < v.len()
        invariant
            i <= v@.len(),
            forall|k: int| 0 <= k < i ==> lower_seq((#[trigger] v@[k])@) != lower_seq(x@),
        decreases v@.len() - i,
    {
        if eq_ignore_case(v[i].as_str(), x) {
            assert(lower_seq(v@[i as int]@) == lower_seq(x@));
            return true;
        }
        i = i + 1;
    }
    false
}

/// Trims the tags, drops blanks, and drops case-insensitive repetitions,
/// keeping first occurrences in order.
pub fn normalize_tags(tags: &Vec<String>) -> (out: Vec<String>)
    ensures
        out@.map_values(|x: String| x@) == norm_tags(tags@),
{
    let mut out: Vec<String> = Vec::new();
    let mut i: usize = 0;
    while i < tags.len()
        invariant
            i <= tags@.len(),
            out@.map_values(|x: String| x@) == norm_tags(tags@.subrange(0, i as int)),
        decreases tags@.len() - i,
    {
        proof {
            assert(tags@.subrange(0, i + 1 as int).drop_last() =~= tags@.subrange(0, i as int));
            assert(tags@.subrange(0, i + 1 as int).last() == tags@[i as int]);
        }
        let trimmed = trim_str(tags[i].as_str());
        if !trimmed.as_str().is_empty() {
            let ghost rest = out@.map_values(|x: String| x@);
            let present = contains_ci(&out, trimmed.as_str());
            proof {
                if present {
                    let k = choose|k: int|
                        0 <= k < out@.len() && lower_seq(out@[k]@) == lower_seq(trimmed@);
                    assert(rest[k] == out@[k]@);
                } else {
                    assert forall|k: int| 0 <= k < rest.len() implies lower_seq(
                        #[trigger] rest[k],
                    ) != lower_seq(trimmed@) by {
                        assert(rest[k] == out@[k]@);
                    }
                }
            }
            if !present {
                let ghost prev = out@;
                out.push(trimmed);
                proof {
                    assert(out@.map_values(|x: String| x@) =~= prev.map_values(
                        |x: String| x@,
                    ).push(trim_spec(tags@[i as int]@)));
                }
            }
        }
        i = i + 1;
    }
    proof {
        assert(tags@.subrange(0, tags@.len() as int) =~= tags@);
    }
    out
}

// --- trimming ----------------------------------------------------------

/// Index of the first non-space character at or after `i`, or the length
/// of `s` when every remaining character is a space.
pub open spec fn first_non_space_at(s: Seq<char>, i: int) -> int
    decreases s.len() - i when 0 <= i <= s.len()
{
    if i >= s.len() {
        s.len() as int
    } else if !is_space_char(s[i]) {
        i
    } else {
        first_non_space_at(s, i + 1)
    }
}

/// One past the last non-space character strictly before `j`, or zero when
/// every such character is a space.
pub open spec fn scan_back_non_space(s: Seq<char>, j: int) -> int
    decreases j when 0 <= j <= s.len()
{
    if j <= 0 {
        0
    } else if !is_space_char(s[j - 1]) {
        j
    } else {
        scan_back_non_space(s, j - 1)
    }
}

/// `s` with leading and trailing ASCII whitespace removed.
pub open spec fn trim_spec(s: Seq<char>) -> Seq<char> {
    let i = first_non_space_at(s, 0);
    if i == s.len() {
        Seq::empty()
    } else {
        s.subrange(i, scan_back_non_space(s, s.len() as int))
    }
}

proof fn lemma_first_non_space(s: Seq<char>, j: int, i: int)
    requires
        0 <= j <= i <= s.len(),
        forall|k: int| j <= k < i ==> is_space_char(s[k]),
        i == s.len() || !is_space_char(s[i]),
    ensures
        first_non_space_at(s, j) == i,
    decreases i - j,
{
    if j < i {
        lemma_first_non_space(s, j + 1, i);
    }
}

proof fn lemma_scan_back(s: Seq<char>, j: int, i: int)
    requires
        0 <= i <= j <= s.len(),
        forall|k: int| i <= k < j ==> is_space_char(s[k]),
        i == 0 || !is_space_char(s[i - 1]),
    ensures
        scan_back_non_space(s, j) == i,
    decreases j - i,
{
    if i < j {
        lemma_scan_back(s, j - 1, i);
    }
}

/// Removes leading and trailing ASCII whitespace.
pub fn trim_str(s: &str) -> (r: String)
    ensures
        r@ == trim_spec(s@),
{
    let len = s.unicode_len();
    let mut i: usize = 0;
    while i < len && space_char(s.get_char(i))
        invariant
            len == s@.len(),
            i <= len,
            forall|k: int| 0 <= k < i ==> is_space_char(s@[k]),
        decreases len - i,
    {
        i = i + 1;
    }
    proof {
        lemma_first_non_space(s@, 0, i as int);
    }
    if i == len {
        let empty = String::new();
        assert(empty@ =~= trim_spec(s@));
        return empty;
    }
    let mut j: usize = len;
    while j > 0 && space_char(s.get_char(j - 1))
        invariant
            len == s@.len(),
            j <= len,
            forall|k: int| j <= k < len ==> is_space_char(s@[k]),
        decreases j,
    {
        j = j - 1;
    }
    proof {
        lemma_scan_back(s@, len as int, j as int);
    }
    assert(i < j) by {
        assert(!is_space_char(s@[i as int]));
    }
    let sub = s.substring_char(i, j);
    let out = sub.to_owned();
    assert(out@ =~= trim_spec(s@));
    out
}

// --- decimal digits ----------------------------------------------------

pub open spec fn digit_of(d: nat) -> char {
    if d == 0 {
        '0'
    } else if d == 1 {
        '1'
    } else if d == 2 {
        '2'
    } else if d == 3 {
        '3'
    } else if d == 4 {
        '4'
    } else if d == 5 {
        '5'
    } else if d == 6 {
        '6'
    } else if d == 7 {
        '7'
    } else if d == 8 {
        '8'
    } else {
        '9'
    }
}

fn digit_exec(d: u64) -> (c: char)
    requires
        d < 10,
    ensures
        c == digit_of(d as nat),
{
    if d == 0 {
        '0'
    } else if d == 1 {
        '1'
    } else if d == 2 {
        '2'
    } else if d == 3 {
        '3'
    } else if d == 4 {
        '4'
    } else if d == 5 {
        '5'
    } else if d == 6 {
        '6'
    } else if d == 7 {
        '7'
    } else if d == 8 {
        '8'
    } else {
        '9'
    }
}

/// The usual decimal representation of a natural number, most significant
/// digit first, with no leading zeros (except for zero itself).
pub open spec fn dec_rep(n: nat) -> Seq<char>
    decreases n,
{
    if n < 10 {
        seq![digit_of(n)]
    } else {
        dec_rep(n / 10).push(digit_of(n % 10))
    }
}

/// Renders `n` in decimal.
pub fn u64_to_string(n: u64) -> (r: String)
    ensures
        r@ == dec_rep(n as nat),
    decreases n,
{
    if n < 10 {
        let mut s = String::new();
        s.push(digit_exec(n));
        assert(s@ =~= dec_rep(n as nat));
        s
    } else {
        let mut s = u64_to_string(n / 10);
        s.push(digit_exec(n % 10));
        assert(s@ =~= dec_rep(n as nat));
        s
    }
}

/// Decimal representation of an integer, with a leading minus sign when
/// negative.
pub open spec fn dec_rep_signed(n: int) -> Seq<char> {
    if n < 0 {
        seq!['-'] + dec_rep((-n) as nat)
    } else {
        dec_rep(n as nat)
    }
}

/// Renders `n` in decimal, with a minus sign when negative.
pub fn i64_to_string(n: i64) -> (r: String)
    requires
        n > i64::MIN,
    ensures
        r@ == dec_rep_signed(n as int),
{
    if n < 0 {
        let mut s = String::new();
        s.push('-');
        let digits = u64_to_string((-n) as u64);
        s.append(digits.as_str());
        assert(s@ =~= dec_rep_signed(n as int));
        s
    } else {
        let s = u64_to_string(n as u64);
        assert(s@ =~= dec_rep_signed(n as int));
        s
    }
}

/// Two fixed decimal digits, zero padded on the left.
pub open spec fn two_digits(n: nat) -> Seq<char> {
    seq![digit_of(n / 10), digit_of(n % 10)]
}

fn push_two_digits(s: &mut String, n: u64)
    requires
        n < 100,
    ensures
        final(s)@ == old(s)@ + two_digits(n as nat),
{
    s.push(digit_exec(n / 10));
    s.push(digit_exec(n % 10));
    assert(final(s)@ =~= old(s)@ + two_digits(n as nat));
}

// --- currency amounts --------------------------------------------------

/// `-$3.05` for `-305`, `$125.00` for `12500`: a dollar sign, the major
/// units in decimal, a point, and exactly two minor digits.
pub open spec fn spec_format_currency(a: int) -> Seq<char> {
    let m = abs(a);
    let sign: Seq<char> = if a < 0 {
        seq!['-']
    } else {
        Seq::empty()
    };
    sign + seq!['$'] + dec_rep((m / 100) as nat) + seq!['.'] + two_digits((m % 100) as nat)
}

/// Renders a minor-unit amount as a dollar string, e.g. `$125.00`.
pub fn format_currency(amount_minor: i64) -> (r: String)
    requires
        amount_minor > i64::MIN,
    ensures
        r@ == spec_format_currency(amount_minor as int),
{
    let mut s = String::new();
    if amount_minor < 0 {
        s.push('-');
    }
    s.push('$');
    let value: u64 = if amount_minor < 0 {
        (-amount_minor) as u64
    } else {
        amount_minor as u64
    };
    let units = u64_to_string(value / 100);
    s.append(units.as_str());
    s.push('.');
    push_two_digits(&mut s, value % 100);
    assert(s@ =~= spec_format_currency(amount_minor as int));
    s
}

/// `-3.05` for `-305`: as [`spec_format_currency`] but without the dollar
/// sign.
pub open spec fn spec_format_minor(a: int) -> Seq<char> {
    let m = abs(a);
    let sign: Seq<char> = if a < 0 {
        seq!['-']
    } else {
        Seq::empty()
    };
    sign + dec_rep((m / 100) as nat) + seq!['.'] + two_digits((m % 100) as nat)
}

/// Renders a minor-unit amount in major.minor form without a currency mark.
pub fn format_minor(amount_minor: i64) -> (r: String)
    requires
        amount_minor > i64::MIN,
    ensures
        r@ == spec_format_minor(amount_minor as int),
{
    let mut s = String::new();
    if amount_minor < 0 {
        s.push('-');
    }
    let value: u64 = if amount_minor < 0 {
        (-amount_minor) as u64
    } else {
        amount_minor as u64
    };
    let units = u64_to_string(value / 100);
    s.append(units.as_str());
    s.push('.');
    push_two_digits(&mut s, value % 100);
    assert(s@ =~= spec_format_minor(amount_minor as int));
    s
}

} // verus!

