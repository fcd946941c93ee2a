//! Character-level helpers the binding parser is built on: converting a
//! string to its characters, case folding, whitespace trimming, and decimal
//! conversions in both directions.

use vstd::prelude::*;
use vstd::string::StrSliceExecFns;
use vstd::string::StringExecFns;

verus! {

/// An upper-case ASCII letter.
pub open spec fn is_upper_alpha(c: char) -> bool {
    65 <= c as u32 <= 90
}

/// A lower-case ASCII letter.
pub open spec fn is_lower_alpha(c: char) -> bool {
    97 <= c as u32 <= 122
}

/// An ASCII digit.
pub open spec fn is_digit_char(c: char) -> bool {
    48 <= c as u32 <= 57
}

/// An ASCII letter or digit.
pub open spec fn is_alnum_char(c: char) -> bool {
    is_upper_alpha(c) || is_lower_alpha(c) || is_digit_char(c)
}

/// Whether `c` counts as whitespace when a token is trimmed: the ASCII
/// whitespace characters and the Unicode space separators.
pub open spec fn is_space_char(c: char) -> bool {
    ||| c as u32 == 0x09
    ||| c as u32 == 0x0A
    ||| c as u32 == 0x0B
    ||| c as u32 == 0x0C
    ||| c as u32 == 0x0D
    ||| c as u32 == 0x20
    ||| c as u32 == 0x85
    ||| c as u32 == 0xA0
    ||| c as u32 == 0x1680
    ||| 0x2000 <= c as u32 <= 0x200A
    ||| c as u32 == 0x2028
    ||| c as u32 == 0x2029
    ||| c as u32 == 0x202F
    ||| c as u32 == 0x205F
    ||| c as u32 == 0x3000
}

/// `c` with an upper-case ASCII letter folded to lower case.
pub open spec fn lower_char(c: char) -> char {
    if c == 'A' { 'a' }
    else if c == 'B' { 'b' }
    else if c == 'C' { 'c' }
    else if c == 'D' { 'd' }
    else if c == 'E' { 'e' }
    else if c == 'F' { 'f' }
    else if c == 'G' { 'g' }
    else if c == 'H' { 'h' }
    else if c == 'I' { 'i' }
    else if c == 'J' { 'j' }
    else if c == 'K' { 'k' }
    else if c == 'L' { 'l' }
    else if c == 'M' { 'm' }
    else if c == 'N' { 'n' }
    else if c == 'O' { 'o' }
    else if c == 'P' { 'p' }
    else if c == 'Q' { 'q' }
    else if c == 'R' { 'r' }
    else if c == 'S' { 's' }
    else if c == 'T' { 't' }
    else if c == 'U' { 'u' }
    else if c == 'V' { 'v' }
    else if c == 'W' { 'w' }
    else if c == 'X' { 'x' }
    else if c == 'Y' { 'y' }
    else if c == 'Z' { 'z' }
    else { c }
}

/// `s` with every character folded by [`lower_char`].
pub open spec fn lower_seq(s: Seq<char>) -> Seq<char> {
    Seq::new(s.len(), |i: int| lower_char(s[i]))
}

/// `s` without its leading whitespace.
pub open spec fn trim_left_spec(s: Seq<char>) -> Seq<char>
    decreases s.len(),
{
    if s.len() > 0 && is_space_char(s[0]) {
        trim_left_spec(s.drop_first())
    } else {
        s
    }
}

/// `s` without its trailing whitespace.
pub open spec fn trim_right_spec(s: Seq<char>) -> Seq<char>
    decreases s.len(),
{
    if s.len() > 0 && is_space_char(s.last()) {
        trim_right_spec(s.drop_last())
    } else {
        s
    }
}

/// `s` without leading and trailing whitespace.
pub open spec fn trim_spec(s: Seq<char>) -> Seq<char> {
    trim_right_spec(trim_left_spec(s))
}

/// The characters of `s`, as a vector.
pub fn chars_of(s: &str) -> (v: Vec<char>)
    ensures
        v@ == s@,
{
    let n: usize = s.unicode_len();
    let mut v: Vec<char> = Vec::new();
    let mut i: usize = 0;
    while i < n
        invariant
            i <= n,
            n == s@.len(),
            v@ == s@.subrange(0, i as int),
        decreases n - i,
    {
        let c = s.get_char(i);
        v.push(c);
        i = i + 1;
        proof {
            assert(v@ =~= s@.subrange(0, i as int));
        }
    }
    proof {
        assert(v@ =~= s@);
    }
    v
}

/// Whether the characters in `v` spell exactly `s`.
pub fn chars_eq_str(v: &Vec<char>, s: &str) -> (eq: bool)
    ensures
        eq == (v@ == s@),
{
    let n: usize = s.unicode_len();
    if v.len() != n {
        return false;
    }
    let mut i: usize = 0;
    while i < n
        invariant
            i <= n,
            n == s@.len(),
            v@.len() == n,
            forall|j: int| 0 <= j < i ==> v@[j] == s@[j],
        decreases n - i,
    {
        if v[i] != s.get_char(i) {
            return false;
        }
        i = i + 1;
    }
    proof {
        assert(v@ =~= s@);
    }
    true
}

/// Executable form of [`lower_char`].
pub fn to_lower_char(c: char) -> (l: char)
    ensures
        l == lower_char(c),
{
    match c {
        'A' => 'a',
        'B' => 'b',
        'C' => 'c',
        'D' => 'd',
        'E' => 'e',
        'F' => 'f',
        'G' => 'g',
        'H' => 'h',
        'I' => 'i',
        'J' => 'j',
        'K' => 'k',
        'L' => 'l',
        'M' => 'm',
        'N' => 'n',
        'O' => 'o',
        'P' => 'p',
        'Q' => 'q',
        'R' => 'r',
        'S' => 's',
        'T' => 't',
        'U' => 'u',
        'V' => 'v',
        'W' => 'w',
        'X' => 'x',
        'Y' => 'y',
        'Z' => 'z',
        _ => c,
    }
}

/// Case folding never yields an upper-case letter, and folds a letter or
/// digit to a lower-case letter or digit.
pub proof fn lemma_lower_char_alnum(c: char)
    ensures
        !is_upper_alpha(lower_char(c)),
        is_alnum_char(c) ==> is_lower_alpha(lower_char(c)) || is_digit_char(lower_char(c)),
{
}

/// Executable form of [`lower_seq`].
pub fn lower_chars(v: &Vec<char>) -> (l: Vec<char>)
    ensures
        l@ == lower_seq(v@),
{
    let mut l: Vec<char> = Vec::new();
    let mut i: usize = 0;
    while i < v.len()
        invariant
            i <= v.len(),
            l@ == lower_seq(v@).subrange(0, i as int),
        decreases v.len() - i,
    {
        l.push(to_lower_char(v[i]));
        i = i + 1;
        proof {
            assert(l@ =~= lower_seq(v@).subrange(0, i as int));
        }
    }
    proof {
        assert(l@ =~= lower_seq(v@));
    }
    l
}

/// Executable form of [`is_space_char`].
pub fn is_space(c: char) -> (r: bool)
    ensures
        r == is_space_char(c),
{
    let u = c as u32;
    u == 0x09 || u == 0x0A || u == 0x0B || u == 0x0C || u == 0x0D || u == 0x20 || u == 0x85
        || u == 0xA0 || u == 0x1680 || (0x2000 <= u && u <= 0x200A) || u == 0x2028 || u == 0x2029
        || u == 0x202F || u == 0x205F || u == 0x3000
}

/// Executable form of [`is_alnum_char`].
pub fn is_alnum(c: char) -> (r: bool)
    ensures
        r == is_alnum_char(c),
{
    let u = c as u32;
    (65 <= u && u <= 90) || (97 <= u && u <= 122) || (48 <= u && u <= 57)
}

/// Executable form of [`trim_spec`].
pub fn trim_chars(v: &Vec<char>) -> (t: Vec<char>)
    ensures
        t@ == trim_spec(v@),
{
    proof {
        assert(v@.subrange(0, v@.len() as int) =~= v@);
    }
    let mut start: usize = 0;
    while start < v.len() && is_space(v[start])
        invariant
            start <= v.len(),
            trim_left_spec(v@) == trim_left_spec(v@.subrange(start as int, v@.len() as int)),
        decreases v.len() - start,
    {
        proof {
            let tail = v@.subrange(start as int, v@.len() as int);
            assert(tail.drop_first() =~= v@.subrange(start as int + 1, v@.len() as int));
        }
        start = start + 1;
    }
    proof {
        let tail = v@.subrange(start as int, v@.len() as int);
        if start < v@.len() {
            assert(trim_left_spec(tail) == tail);
        } else {
            assert(tail =~= Seq::<char>::empty());
        }
        assert(trim_left_spec(v@) == v@.subrange(start as int, v@.len() as int));
    }
    let mut end: usize = v.len();
    while end > start && is_space(v[end - 1])
        invariant
            start <= end <= v.len(),
            trim_left_spec(v@) == v@.subrange(start as int, v@.len() as int),
            trim_spec(v@) == trim_right_spec(v@.subrange(start as int, end as int)),
        decreases end,
    {
        proof {
            let piece = v@.subrange(start as int, end as int);
            assert(piece.drop_last() =~= v@.subrange(start as int, end as int - 1));
        }
        end = end - 1;
    }
    proof {
        let piece = v@.subrange(start as int, end as int);
        if end > start {
            assert(trim_right_spec(piece) == piece);
        } else {
            assert(piece =~= Seq::<char>::empty());
        }
        assert(trim_spec(v@) == v@.subrange(start as int, end as int));
    }
    let mut t: Vec<char> = Vec::new();
    let mut i: usize = start;
    while i < end
        invariant
            start <= i <= end <= v@.len(),
            t@ == v@.subrange(start as int, i as int),
        decreases end - i,
    {
        t.push(v[i]);
        i = i + 1;
        proof {
            assert(t@ =~= v@.subrange(start as int, i as int));
        }
    }
    proof {
        assert(t@ == trim_spec(v@));
    }
    t
}

/// The numeric value of an ASCII digit.
pub open spec fn digit_val(c: char) -> nat {
    (c as u32 - 48) as nat
}

/// A non-empty run of ASCII digits.
pub open spec fn is_decimal_digits(s: Seq<char>) -> bool {
    s.len() > 0 && forall|i: int| 0 <= i < s.len() ==> is_digit_char(s[i])
}

/// The number a run of digits denotes.
pub open spec fn decimal_nat(s: Seq<char>) -> nat
    decreases s.len(),
{
    if s.len() == 0 {
        0
    } else {
        decimal_nat(s.drop_last()) * 10 + digit_val(s.last())
    }
}

/// What reading `s` as a decimal `u32` yields: its value, if `s` is a
/// non-empty run of digits whose value fits.
pub open spec fn decimal_u32_spec(s: Seq<char>) -> Option<u32> {
    if is_decimal_digits(s) && decimal_nat(s) <= u32::MAX {
        Some(decimal_nat(s) as u32)
    } else {
        None
    }
}

/// Once a prefix of a digit run exceeds a bound, the whole run does.
proof fn lemma_decimal_prefix_exceeds(s: Seq<char>, k: int, bound: nat)
    requires
        0 <= k <= s.len(),
        decimal_nat(s.subrange(0, k)) > bound,
    ensures
        decimal_nat(s) > bound,
    decreases s.len() - k,
{
    if k == s.len() {
        assert(s.subrange(0, k) =~= s);
    } else {
        let next = s.subrange(0, k + 1);
        assert(next.drop_last() =~= s.subrange(0, k));
        let a = decimal_nat(s.subrange(0, k));
        assert(decimal_nat(next) == a * 10 + digit_val(s[k]));
        assert(a * 10 >= a) by (nonlinear_arith)
            requires a >= 0,
        ;
        lemma_decimal_prefix_exceeds(s, k + 1, bound);
    }
}

/// Executable form of [`decimal_u32_spec`].
pub fn decimal_u32(v: &Vec<char>) -> (r: Option<u32>)
    ensures
        r == decimal_u32_spec(v@),
{
    if v.len() == 0 {
        return None;
    }
    let mut acc: u64 = 0;
    let mut i: usize = 0;
    while i < v.len()
        invariant
            0 < v@.len(),
            i <= v.len(),
            forall|j: int| 0 <= j < i ==> is_digit_char(v@[j]),
            acc == decimal_nat(v@.subrange(0, i as int)),
            acc <= u32::MAX,
        decreases v.len() - i,
    {
        let c = v[i];
        let cu: u32 = c as u32;
        if cu < 48 || cu > 57 {
            proof {
                assert(!is_digit_char(v@[i as int]));
            }
            return None;
        }
        let ghost prefix = v@.subrange(0, i as int);
        let ghost grown = v@.subrange(0, i as int + 1);
        proof {
            assert(grown.drop_last() =~= prefix);
            assert(grown.last() == v@[i as int]);
            assert(digit_val(v@[i as int]) == (cu - 48) as nat);
        }
        let next: u64 = acc * 10 + ((cu - 48) as u64);
        proof {
            assert(next as nat == decimal_nat(grown));
        }
        if next > 0xFFFF_FFFF {
            proof {
                lemma_decimal_prefix_exceeds(v@, i as int + 1, u32::MAX as nat);
            }
            return None;
        }
        acc = next;
        i = i + 1;
    }
    proof {
        assert(v@.subrange(0, v@.len() as int) =~= v@);
    }
    Some(acc as u32)
}

/// The digit for a value below ten.
pub open spec fn digit_char_of(d: nat) -> char {
    if d == 0 { '0' }
    else if d == 1 { '1' }
    else if d == 2 { '2' }
    else if d == 3 { '3' }
    else if d == 4 { '4' }
    else if d == 5 { '5' }
    else if d == 6 { '6' }
    else if d == 7 { '7' }
    else if d == 8 { '8' }
    else { '9' }
}

/// The decimal spelling of `n`, most significant digit first.
pub open spec fn dec_seq_of(n: nat) -> Seq<char>
    decreases n,
{
    if n < 10 {
        seq![digit_char_of(n)]
    } else {
        dec_seq_of(n / 10).push(digit_char_of(n % 10))
    }
}

/// The decimal spelling of an integer, with a leading minus sign when negative.
pub open spec fn int_dec_seq(v: int) -> Seq<char> {
    if v < 0 {
        seq!['-'] + dec_seq_of((-v) as nat)
    } else {
        dec_seq_of(v as nat)
    }
}

fn digit_str(d: u64) -> (s: &'static str)
    requires
        d < 10,
    ensures
        s@ == seq![digit_char_of(d as nat)],
{
    let r: &'static str = match d {
        0 => "0",
        1 => "1",
        2 => "2",
        3 => "3",
        4 => "4",
        5 => "5",
        6 => "6",
        7 => "7",
        8 => "8",
        _ => "9",
    };
    proof {
        reveal_strlit("0");
        reveal_strlit("1");
        reveal_strlit("2");
        reveal_strlit("3");
        reveal_strlit("4");
        reveal_strlit("5");
        reveal_strlit("6");
        reveal_strlit("7");
        reveal_strlit("8");
        reveal_strlit("9");
        assert(r@ =~= seq![digit_char_of(d as nat)]);
    }
    r
}

/// The decimal spelling of `n`, as a string.
pub fn dec_string_u64(n: u64) -> (s: String)
    ensures
        s@ == dec_seq_of(n as nat),
    decreases n,
{
    if n < 10 {
        digit_str(n).to_owned()
    } else {
        let mut s = dec_string_u64(n / 10);
        s.append(digit_str(n % 10));
        proof {
            assert(s@ =~= dec_seq_of(n as nat));
        }
        s
    }
}

/// The decimal spelling of `v`, as a string.
pub fn dec_string_i32(v: i32) -> (s: String)
    ensures
        s@ == int_dec_seq(v as int),
{
    if v < 0 {
        let n: u64 = (-(v as i64)) as u64;
        let mut s = "-".to_owned();
        proof {
            reveal_strlit("-");
            assert(s@ =~= seq!['-']);
        }
        let digits = dec_string_u64(n);
        s.append(digits.as_str());
        proof {
            assert(s@ =~= int_dec_seq(v as int));
        }
        s
    } else {
        let s = dec_string_u64(v as u64);
        s
    }
}

} // verus!
