//! Text helpers: decimal rendering of unsigned integers and removal of
//! surrounding whitespace.
use vstd::prelude::*;

verus! {

/// The character of a decimal digit.
pub open spec fn digit_char(d: int) -> char {
    if d == 0 { '0' }
    else if d == 1 { '1' }
    else if d == 2 { '2' }
    else if d == 3 { '3' }
    else if d == 4 { '4' }
    else if d == 5 { '5' }
    else if d == 6 { '6' }
    else if d == 7 { '7' }
    else if d == 8 { '8' }
    else { '9' }
}

/// The decimal representation of `n`: its digits, most significant first,
/// without leading zeros (`0` is the single digit `0`).
pub open spec fn decimal(n: nat) -> Seq<char>
    decreases n,
{
    if n < 10 {
        seq![digit_char(n as int)]
    } else {
        decimal(n / 10).push(digit_char((n % 10) as int))
    }
}

/// Whether `c` is one of the ASCII digits `0` to `9`.
pub open spec fn is_digit(c: char) -> bool {
    48 <= c as int <= 57
}

/// The number that a numeral of ASCII digits denotes in base 10: each digit
/// counts its character code minus that of `0`.
pub open spec fn numeral_value(s: Seq<char>) -> int
    decreases s.len(),
{
    if s.len() == 0 {
        0
    } else {
        10 * numeral_value(s.drop_last()) + (s.last() as int - 48)
    }
}

/// A standard base-10 numeral: at least one digit, all ASCII digits, and no
/// leading zero unless the numeral is `0` itself.
pub open spec fn is_canonical_numeral(s: Seq<char>) -> bool {
    &&& s.len() > 0
    &&& forall|i: int| 0 <= i < s.len() ==> is_digit(#[trigger] s[i])
    &&& s.len() > 1 ==> s[0] != '0'
}

/// The character of digit `d` is the one whose code is that of `0` plus `d`.
proof fn lemma_digit_char_code(d: int)
    requires
        0 <= d < 10,
    ensures
        digit_char(d) as int == 48 + d,
{
}

/// The decimal representation of every number is its standard numeral: it
/// is made of digits with no leading zero, and read back in base 10 it gives
/// the number.
pub proof fn lemma_decimal_reads_back(n: nat)
    ensures
        numeral_value(decimal(n)) == n,
        is_canonical_numeral(decimal(n)),
    decreases n,
{
    if n < 10 {
        lemma_digit_char_code(n as int);
        let s = decimal(n);
        assert(s.drop_last() =~= Seq::<char>::empty());
        assert(numeral_value(s.drop_last()) == 0);
        assert(numeral_value(s) == 10 * numeral_value(s.drop_last()) + (s.last() as int - 48));
    } else {
        lemma_digit_char_code((n % 10) as int);
        lemma_decimal_reads_back(n / 10);
        let s = decimal(n);
        let p = decimal(n / 10);
        assert(s.drop_last() =~= p);
        assert(numeral_value(s) == 10 * numeral_value(s.drop_last()) + (s.last() as int - 48));
        assert(s.last() as int - 48 == n % 10);
        assert(numeral_value(s) == 10 * (n / 10) + n % 10);
        assert(s[0] == p[0]);
        assert forall|i: int| 0 <= i < s.len() implies is_digit(#[trigger] s[i]) by {
            if i < p.len() {
                assert(s[i] == p[i]);
            }
        }
        if p.len() == 1 {
            assert(p[0] != '0') by {
                assert(numeral_value(p.drop_last()) == 0) by {
                    assert(p.drop_last() =~= Seq::<char>::empty());
                }
            }
        }
    }
}

/// Whether `c` has the Unicode `White_Space` property.
pub open spec fn is_ws(c: char) -> bool {
    let u = c as u32;
    ||| 0x09 <= u <= 0x0d
    ||| u == 0x20
    ||| u == 0x85
    ||| u == 0xa0
    ||| u == 0x1680
    ||| 0x2000 <= u <= 0x200a
    ||| u == 0x2028
    ||| u == 0x2029
    ||| u == 0x202f
    ||| u == 0x205f
    ||| u == 0x3000
}

/// `s` with its leading and trailing whitespace removed: whitespace is taken
/// off either end until neither end is whitespace.
pub open spec fn trim_chars(s: Seq<char>) -> Seq<char>
    decreases s.len(),
{
    if s.len() == 0 {
        s
    } else if is_ws(s[0]) {
        trim_chars(s.drop_first())
    } else if is_ws(s.last()) {
        trim_chars(s.drop_last())
    } else {
        s
    }
}

/// The string of one decimal digit.
fn digit_str(d: u64) -> (r: &'static str)
    requires
        d < 10,
    ensures
        r@ == seq![digit_char(d as int)],
{
    if d == 0 {
        proof { reveal_strlit("0"); }
        "0"
    } else if d == 1 {
        proof { reveal_strlit("1"); }
        "1"
    } else if d == 2 {
        proof { reveal_strlit("2"); }
        "2"
    } else if d == 3 {
        proof { reveal_strlit("3"); }
        "3"
    } else if d == 4 {
        proof { reveal_strlit("4"); }
        "4"
    } else if d == 5 {
        proof { reveal_strlit("5"); }
        "5"
    } else if d == 6 {
        proof { reveal_strlit("6"); }
        "6"
    } else if d == 7 {
        proof { reveal_strlit("7"); }
        "7"
    } else if d == 8 {
        proof { reveal_strlit("8"); }
        "8"
    } else {
        proof { reveal_strlit("9"); }
        "9"
    }
}

/// The decimal representation of `n`.
pub fn decimal_string(n: u64) -> (r: String)
    ensures
        r@ == decimal(n as nat),
        numeral_value(r@) == n,
        is_canonical_numeral(r@),
    decreases n,
{
    proof {
        lemma_decimal_reads_back(n as nat);
    }
    if n < 10 {
        String::from_str(digit_str(n))
    } else {
        let mut s = decimal_string(n / 10);
        s.append(digit_str(n % 10));
        s
    }
}

/// Whether `c` has the Unicode `White_Space` property.
pub fn is_whitespace(c: char) -> (r: bool)
    ensures
        r == is_ws(c),
{
    let u = c as u32;
    (0x09 <= u && u <= 0x0d) || u == 0x20 || u == 0x85 || u == 0xa0 || u == 0x1680 || (0x2000 <= u
        && u <= 0x200a) || u == 0x2028 || u == 0x2029 || u == 0x202f || u == 0x205f || u == 0x3000
}

/// Where the whitespace that surrounds `s` starts and ends: everything before
/// `a` and from `b` on is whitespace, and when something is left, it starts
/// and ends with a character that is not.
pub open spec fn trim_bounds(s: Seq<char>, a: int, b: int) -> bool {
    &&& 0 <= a <= b <= s.len()
    &&& forall|i: int| 0 <= i < a ==> is_ws(#[trigger] s[i])
    &&& forall|i: int| b <= i < s.len() ==> is_ws(#[trigger] s[i])
    &&& a < b ==> !is_ws(s[a]) && !is_ws(s[b - 1])
}

/// Whatever the bounds, `trim_chars` keeps exactly what lies between them.
pub proof fn lemma_trim_bounds(s: Seq<char>, a: int, b: int)
    requires
        trim_bounds(s, a, b),
    ensures
        trim_chars(s) =~= s.subrange(a, b),
    decreases s.len(),
{
    if s.len() == 0 {
    } else if is_ws(s[0]) {
        let t = s.drop_first();
        if a > 0 {
            assert(trim_bounds(t, a - 1, b - 1)) by {
                assert forall|i: int| 0 <= i < a - 1 implies is_ws(#[trigger] t[i]) by {
                    assert(t[i] == s[i + 1]);
                }
                assert forall|i: int| b - 1 <= i < t.len() implies is_ws(#[trigger] t[i]) by {
                    assert(t[i] == s[i + 1]);
                }
            }
            lemma_trim_bounds(t, a - 1, b - 1);
            assert(t.subrange(a - 1, b - 1) =~= s.subrange(a, b));
        } else {
            assert(a == b);
            assert(trim_bounds(t, 0, 0)) by {
                assert forall|i: int| 0 <= i < t.len() implies is_ws(#[trigger] t[i]) by {
                    assert(t[i] == s[i + 1]);
                }
            }
            lemma_trim_bounds(t, 0, 0);
        }
    } else {
        assert(a == 0);
        if a == b {
            assert(is_ws(s[0]));
        }
        if is_ws(s.last()) {
            let t = s.drop_last();
            assert(b < s.len());
            assert(trim_bounds(t, a, b)) by {
                assert forall|i: int| 0 <= i < a implies is_ws(#[trigger] t[i]) by {
                    assert(t[i] == s[i]);
                }
                assert forall|i: int| b <= i < t.len() implies is_ws(#[trigger] t[i]) by {
                    assert(t[i] == s[i]);
                }
            }
            lemma_trim_bounds(t, a, b);
            assert(t.subrange(a, b) =~= s.subrange(a, b));
        } else {
            if b < s.len() {
                assert(is_ws(s[s.len() - 1]));
            }
            assert(b == s.len());
        }
    }
}

/// `s` with its leading and trailing whitespace removed.
pub fn trim(s: &str) -> (r: &str)
    ensures
        r@ == trim_chars(s@),
{
    let mut a: usize = 0;
    let mut b: usize = 0;
    let mut seen = false;
    let mut i: usize = 0;
    let n = s.unicode_len();
    for c in it: s.chars()
        invariant
            it.seq() == s@,
            n == s@.len(),
            i == it.index(),
            !seen ==> a == 0 && b == 0,
            !seen ==> forall|j: int| 0 <= j < i ==> is_ws(#[trigger] s@[j]),
            seen ==> a < b <= i,
            seen ==> !is_ws(s@[a as int]) && !is_ws(s@[b - 1]),
            seen ==> forall|j: int| 0 <= j < a ==> is_ws(#[trigger] s@[j]),
            seen ==> forall|j: int| b <= j < i ==> is_ws(#[trigger] s@[j]),
    {
        if !is_whitespace(c) {
            if !seen {
                a = i;
                seen = true;
            }
            b = i + 1;
        }
        i = i + 1;
    }
    proof {
        lemma_trim_bounds(s@, a as int, b as int);
    }
    s.substring_char(a, b)
}

} // verus!
