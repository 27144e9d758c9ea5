//! Character-level helpers on strings: comparison, and the decimal
//! notation of unsigned integers.

use vstd::arithmetic::div_mod::lemma_fundamental_div_mod;
use vstd::prelude::*;
use vstd::string::*;

verus! {

/// Whether the two strings hold the same characters.
pub fn same_text(a: &str, b: &str) -> (r: bool)
    ensures
        r == (a@ == b@),
{
    let n = a.unicode_len();
    if n != b.unicode_len() {
        return false;
    }
    let mut i: usize = 0;
    while i < n
        invariant
            n == a@.len(),
            n == b@.len(),
            i <= n,
            forall|j: int| 0 <= j < i ==> a@[j] == b@[j],
        decreases n - i,
    {
        if a.get_char(i) != b.get_char(i) {
            return false;
        }
        i = i + 1;
    }
    assert(a@ =~= b@);
    true
}

/// Whether `c` is one of the ASCII digits `0` to `9`.
pub open spec fn is_digit(c: char) -> bool {
    '0' <= c && c <= '9'
}

/// The value of a digit character; other characters count as zero.
pub open spec fn digit_value(c: char) -> nat {
    if is_digit(c) {
        (c as int - '0' as int) as nat
    } else {
        0
    }
}

/// The digit character of a value below ten.
pub open spec fn digit_char(d: nat) -> char {
    if d == 0 {
        '0'
    } else if d == 1 {
        '1'
    } else if d == 2 {
        '2'
    } else if d == 3 {
        '3'
    } else if d == 4 {
        '4'
    } else if d == 5 {
        '5'
    } else if d == 6 {
        '6'
    } else if d == 7 {
        '7'
    } else if d == 8 {
        '8'
    } else {
        '9'
    }
}

/// The number that a run of digits denotes in base ten, most significant
/// digit first.
pub open spec fn digits_value(s: Seq<char>) -> nat
    decreases s.len(),
{
    if s.len() == 0 {
        0
    } else {
        digits_value(s.drop_last()) * 10 + digit_value(s.last())
    }
}

/// The shortest decimal notation of `n`.
pub open spec fn decimal_of(n: nat) -> Seq<char>
    decreases n,
{
    if n < 10 {
        seq![digit_char(n)]
    } else {
        decimal_of(n / 10).push(digit_char(n % 10))
    }
}

/// The digits of an unsigned number in text: everything after an optional
/// leading `+`.
pub open spec fn unsigned_body(s: Seq<char>) -> Seq<char> {
    if s.len() > 0 && s[0] == '+' {
        s.drop_first()
    } else {
        s
    }
}

/// Whether `s` is the text of a `u32`: an optional `+`, then at least one
/// digit, with a value that fits in 32 bits.
pub open spec fn is_u32_text(s: Seq<char>) -> bool {
    let b = unsigned_body(s);
    &&& b.len() > 0
    &&& forall|i: int| 0 <= i < b.len() ==> is_digit(#[trigger] b[i])
    &&& digits_value(b) <= u32::MAX
}

/// A digit character is a digit and denotes its value.
proof fn lemma_digit_char(d: nat)
    requires
        d < 10,
    ensures
        is_digit(digit_char(d)),
        digit_value(digit_char(d)) == d,
{
}

/// The notation of a number is a non-empty run of digits that denotes it.
pub proof fn lemma_decimal_of(n: nat)
    ensures
        decimal_of(n).len() > 0,
        forall|i: int| 0 <= i < decimal_of(n).len() ==> is_digit(#[trigger] decimal_of(n)[i]),
        digits_value(decimal_of(n)) == n,
    decreases n,
{
    lemma_digit_char(n % 10);
    if n >= 10 {
        lemma_decimal_of(n / 10);
        lemma_fundamental_div_mod(n as int, 10);
        assert(decimal_of(n).drop_last() =~= decimal_of(n / 10));
        assert(digits_value(decimal_of(n)) == digits_value(decimal_of(n / 10)) * 10 + n % 10);
    } else {
        assert(decimal_of(n).drop_last() =~= Seq::<char>::empty());
        assert(digits_value(Seq::<char>::empty()) == 0);
    }
}

/// A prefix of a run of digits never denotes more than the whole run.
proof fn lemma_prefix_value_le(s: Seq<char>, k: int)
    requires
        0 <= k <= s.len(),
    ensures
        digits_value(s.subrange(0, k)) <= digits_value(s),
    decreases s.len(),
{
    if k < s.len() {
        lemma_prefix_value_le(s.drop_last(), k);
        assert(s.drop_last().subrange(0, k) =~= s.subrange(0, k));
    } else {
        assert(s.subrange(0, k) =~= s);
    }
}

/// Reads the text of a `u32` (see [`is_u32_text`]); `None` where `s` is not
/// one.
pub fn parse_u32(s: &str) -> (r: Option<u32>)
    ensures
        r == (if is_u32_text(s@) {
            Some(digits_value(unsigned_body(s@)) as u32)
        } else {
            None::<u32>
        }),
{
    let n = s.unicode_len();
    let start: usize = if n > 0 && s.get_char(0) == '+' {
        1
    } else {
        0
    };
    let ghost b = unsigned_body(s@);
    assert(b =~= s@.subrange(start as int, n as int));
    if start == n {
        return None;
    }
    let mut acc: u32 = 0;
    let mut i: usize = start;
    while i < n
        invariant
            n == s@.len(),
            start <= i <= n,
            b == unsigned_body(s@),
            b =~= s@.subrange(start as int, n as int),
            forall|j: int| 0 <= j < i - start ==> is_digit(#[trigger] b[j]),
            acc as nat == digits_value(b.subrange(0, i - start)),
        decreases n - i,
    {
        let c = s.get_char(i);
        assert(b[i - start] == c);
        if c < '0' || c > '9' {
            assert(!is_digit(b[i - start]));
            return None;
        }
        let d: u32 = (c as u32) - ('0' as u32);
        let ghost k = i - start;
        assert(b.subrange(0, k + 1).drop_last() =~= b.subrange(0, k));
        assert(b.subrange(0, k + 1).last() == c);
        assert(digit_value(c) == d);
        assert(digits_value(b.subrange(0, k + 1)) == acc * 10 + d);
        match acc.checked_mul(10) {
            Some(m) => match m.checked_add(d) {
                Some(v) => {
                    acc = v;
                },
                None => {
                    proof {
                        lemma_prefix_value_le(b, k + 1);
                    }
                    return None;
                },
            },
            None => {
                proof {
                    lemma_prefix_value_le(b, k + 1);
                }
                return None;
            },
        }
        i = i + 1;
    }
    assert(b.subrange(0, n - start) =~= b);
    Some(acc)
}

/// The single-character text of a digit value.
fn digit_text(d: u32) -> (r: &'static str)
    requires
        d < 10,
    ensures
        r@ == seq![digit_char(d as nat)],
{
    let digits = "0123456789";
    proof {
        reveal_strlit("0123456789");
    }
    let r = digits.substring_char(d as usize, d as usize + 1);
    assert(r@ =~= seq![digit_char(d as nat)]);
    r
}

/// The decimal notation of `n`, with no sign and no leading zeros.
pub fn decimal_text(n: u32) -> (r: String)
    ensures
        r@ == decimal_of(n as nat),
    decreases n,
{
    if n < 10 {
        String::from_str(digit_text(n))
    } else {
        let mut r = decimal_text(n / 10);
        r.append(digit_text(n % 10));
        r
    }
}

} // verus!
