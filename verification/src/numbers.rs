//! Decimal numbers in message text: reading a vote count out of a line
//! and writing the incremented count back.

use vstd::prelude::*;
use vstd::string::{StrSliceExecFns, StringExecFns};

verus! {

/// The decimal digit character for a value below ten.
pub open spec fn digit_char(d: nat) -> char {
    if d == 0 {
        '0'
    } else if d == 1 {
        '1'
    } else if d == 2 {
        '2'
    } else if d == 3 {
        '3'
    } else if d == 4 {
        '4'
    } else if d == 5 {
        '5'
    } else if d == 6 {
        '6'
    } else if d == 7 {
        '7'
    } else if d == 8 {
        '8'
    } else {
        '9'
    }
}

/// The decimal digits of `n`, most significant first, without leading
/// zeros (zero itself is the single digit `0`).
pub open spec fn dec_digits(n: nat) -> Seq<char>
    decreases n,
{
    if n < 10 {
        seq![digit_char(n)]
    } else {
        dec_digits(n / 10).push(digit_char(n % 10))
    }
}

/// The character is a decimal digit.
pub open spec fn is_digit(c: char) -> bool {
    '0' <= c <= '9'
}

/// Every character of `s` is a decimal digit.
pub open spec fn all_digits(s: Seq<char>) -> bool {
    forall|i: int| 0 <= i < s.len() ==> is_digit(#[trigger] s[i])
}

/// The value of a decimal digit character.
pub open spec fn digit_val(c: char) -> nat {
    (c as int - '0' as int) as nat
}

/// The value of a string of decimal digits, most significant first.
pub open spec fn digits_val(s: Seq<char>) -> nat
    decreases s.len(),
{
    if s.len() == 0 {
        0
    } else {
        digits_val(s.drop_last()) * 10 + digit_val(s.last())
    }
}

/// A longer string of digits never has a smaller value.
proof fn lemma_digits_val_prefix_le(s: Seq<char>, k: int)
    requires
        0 <= k <= s.len(),
    ensures
        digits_val(s.subrange(0, k)) <= digits_val(s),
    decreases s.len() - k,
{
    if k == s.len() {
        assert(s.subrange(0, k) =~= s);
    } else {
        lemma_digits_val_prefix_le(s, k + 1);
        let t = s.subrange(0, k + 1);
        assert(t.drop_last() =~= s.subrange(0, k));
        assert(digits_val(s.subrange(0, k)) <= digits_val(t)) by {
            assert(digits_val(t) == digits_val(t.drop_last()) * 10 + digit_val(t.last()));
        }
    }
}

/// Reads a decimal number: the value of `s` where `s` is one or more
/// digits and the value fits in a `u64`, nothing otherwise.
pub fn parse_u64(s: &str) -> (r: Option<u64>)
    ensures
        match r {
            Option::Some(n) => s@.len() > 0 && all_digits(s@) && n as nat == digits_val(s@),
            Option::None => !(s@.len() > 0 && all_digits(s@) && digits_val(s@) <= u64::MAX),
        },
{
    let n = s.unicode_len();
    if n == 0 {
        return None;
    }
    let mut i: usize = 0;
    let mut acc: u64 = 0;
    while i < n
        invariant
            0 < n == s@.len(),
            i <= n,
            forall|j: int| 0 <= j < i ==> is_digit(#[trigger] s@[j]),
            acc as nat == digits_val(s@.subrange(0, i as int)),
        decreases n - i,
    {
        let c = s.get_char(i);
        if !(c >= '0' && c <= '9') {
            return None;
        }
        let d: u64 = (c as u32 - '0' as u32) as u64;
        let next = match acc.checked_mul(10) {
            Some(m) => match m.checked_add(d) {
                Some(x) => x,
                None => {
                    proof {
                        overflow_step(s@, i as int, acc as nat, d as nat);
                    }
                    return None;
                },
            },
            None => {
                proof {
                    overflow_step(s@, i as int, acc as nat, d as nat);
                }
                return None;
            },
        };
        proof {
            let t = s@.subrange(0, i + 1);
            assert(t.drop_last() =~= s@.subrange(0, i as int));
            assert(t.last() == s@[i as int]);
        }
        acc = next;
        i += 1;
    }
    proof {
        assert(s@.subrange(0, n as int) =~= s@);
    }
    Some(acc)
}

/// If the digits read so far already overflow, the whole string's value
/// cannot fit either.
proof fn overflow_step(s: Seq<char>, i: int, acc: nat, d: nat)
    requires
        0 <= i < s.len(),
        acc == digits_val(s.subrange(0, i)),
        d == digit_val(s[i]),
        acc * 10 + d > u64::MAX,
    ensures
        !(all_digits(s) && digits_val(s) <= u64::MAX),
{
    if all_digits(s) {
        let t = s.subrange(0, i + 1);
        assert(t.drop_last() =~= s.subrange(0, i));
        assert(t.last() == s[i]);
        assert(digits_val(t) == acc * 10 + d);
        lemma_digits_val_prefix_le(s, i + 1);
    }
}

/// The digit characters of `ds` read back to front.
pub open spec fn rev_digit_chars(ds: Seq<u64>) -> Seq<char> {
    Seq::new(ds.len(), |i: int| digit_char(ds[ds.len() - 1 - i] as nat))
}

/// The digits of `m` still to be written, most significant first; nothing
/// once `m` is zero.
pub open spec fn lead_digits(m: nat) -> Seq<char> {
    if m == 0 {
        Seq::empty()
    } else {
        dec_digits(m)
    }
}

/// The single-character string of one decimal digit.
fn digit_str(d: u64) -> (r: &'static str)
    requires
        d < 10,
    ensures
        r@ =~= seq![digit_char(d as nat)],
{
    let r: &'static str = if d == 0 {
        "0"
    } else if d == 1 {
        "1"
    } else if d == 2 {
        "2"
    } else if d == 3 {
        "3"
    } else if d == 4 {
        "4"
    } else if d == 5 {
        "5"
    } else if d == 6 {
        "6"
    } else if d == 7 {
        "7"
    } else if d == 8 {
        "8"
    } else {
        "9"
    };
    proof {
        reveal_strlit("0");
        reveal_strlit("1");
        reveal_strlit("2");
        reveal_strlit("3");
        reveal_strlit("4");
        reveal_strlit("5");
        reveal_strlit("6");
        reveal_strlit("7");
        reveal_strlit("8");
        reveal_strlit("9");
        assert(r@ =~= seq![digit_char(d as nat)]);
    }
    r
}

/// Writes `n` in decimal.
pub fn u64_to_string(n: u64) -> (r: String)
    ensures
        r@ == dec_digits(n as nat),
{
    let mut digits: Vec<u64> = Vec::new();
    let mut m: u64 = n;
    digits.push(m % 10);
    m = m / 10;
    proof {
        lemma_written_split(n as nat);
        assert(rev_digit_chars(digits@) =~= seq![digit_char((n % 10) as nat)]);
        assert(dec_digits(n as nat) =~= lead_digits(m as nat) + rev_digit_chars(digits@));
    }
    while m > 0
        invariant
            dec_digits(n as nat) =~= lead_digits(m as nat) + rev_digit_chars(digits@),
            forall|j: int| 0 <= j < digits@.len() ==> #[trigger] digits@[j] < 10,
        decreases m,
    {
        let ghost pre = digits@;
        let ghost mpre = m as nat;
        digits.push(m % 10);
        proof {
            lemma_written_split(mpre);
            assert(rev_digit_chars(digits@) =~= seq![digit_char(mpre % 10)] + rev_digit_chars(pre));
            assert(lead_digits(mpre) + rev_digit_chars(pre) =~= lead_digits(mpre / 10)
                + rev_digit_chars(digits@));
        }
        m = m / 10;
    }
    let mut r = String::new();
    let mut k = digits.len();
    proof {
        assert(dec_digits(n as nat) =~= rev_digit_chars(digits@));
        assert(r@ =~= rev_digit_chars(digits@).subrange(0, 0));
    }
    while k > 0
        invariant
            k <= digits@.len(),
            forall|j: int| 0 <= j < digits@.len() ==> #[trigger] digits@[j] < 10,
            r@ == rev_digit_chars(digits@).subrange(0, digits@.len() - k),
        decreases k,
    {
        k = k - 1;
        let d = digits[k];
        r.append(digit_str(d));
        proof {
            let rc = rev_digit_chars(digits@);
            assert(rc[digits@.len() - 1 - k] == digit_char(digits@[k as int] as nat));
            assert(rc.subrange(0, digits@.len() - k) =~= rc.subrange(0, digits@.len() - 1 - k)
                + seq![digit_char(digits@[k as int] as nat)]);
        }
    }
    proof {
        assert(rev_digit_chars(digits@).subrange(0, digits@.len() as int) =~= rev_digit_chars(
            digits@,
        ));
    }
    r
}

/// Peeling the last digit off: the digits of `m` are the digits still to
/// be written for `m / 10` followed by `m`'s last digit.
proof fn lemma_written_split(m: nat)
    ensures
        dec_digits(m) =~= lead_digits(m / 10) + seq![digit_char(m % 10)],
{
    if m < 10 {
        assert(m / 10 == 0 && m % 10 == m);
        assert(dec_digits(m) =~= seq![digit_char(m)]);
    } else {
        assert(dec_digits(m) == dec_digits(m / 10).push(digit_char(m % 10)));
        assert(dec_digits(m / 10).push(digit_char(m % 10)) =~= dec_digits(m / 10) + seq![
            digit_char(m % 10),
        ]);
    }
}

} // verus!
