//! Signed decimal numerals: what a text denotes as an integer, and reading
//! one into a machine integer.

use vstd::prelude::*;
use vstd::string::StringExecFns;

verus! {

/// The ASCII codes of `-`, `+`, `0` and `9`.
const MINUS: u8 = 45;

const PLUS: u8 = 43;

const ZERO: u8 = 48;

const NINE: u8 = 57;

/// Whether `c` is one of the ten ASCII digits.
pub open spec fn is_digit(c: char) -> bool {
    '0' <= c <= '9'
}

/// The value of the digit `c`.
pub open spec fn digit_value(c: char) -> int {
    c as int - '0' as int
}

/// Whether every character of `s` is a digit.
pub open spec fn all_digits(s: Seq<char>) -> bool {
    forall|i: int| 0 <= i < s.len() ==> is_digit(#[trigger] s[i])
}

/// The number that a run of digits denotes, most significant digit first.
pub open spec fn digits_value(s: Seq<char>) -> int
    decreases s.len(),
{
    if s.len() == 0 {
        0
    } else {
        digits_value(s.drop_last()) * 10 + digit_value(s.last())
    }
}

/// Whether `s` starts with a sign.
pub open spec fn has_sign(s: Seq<char>) -> bool {
    s.len() > 0 && (s[0] == '-' || s[0] == '+')
}

/// The digits of a numeral: the text without its sign.
pub open spec fn numeral_digits(s: Seq<char>) -> Seq<char> {
    if has_sign(s) {
        s.subrange(1, s.len() as int)
    } else {
        s
    }
}

/// A numeral is an optional sign followed by at least one digit and nothing
/// else.
pub open spec fn is_numeral(s: Seq<char>) -> bool {
    numeral_digits(s).len() > 0 && all_digits(numeral_digits(s))
}

/// The integer that a numeral denotes.
pub open spec fn numeral_value(s: Seq<char>) -> int {
    if s.len() > 0 && s[0] == '-' {
        -digits_value(numeral_digits(s))
    } else {
        digits_value(numeral_digits(s))
    }
}

/// The machine integer that `s` denotes: `s` must be a numeral whose value
/// fits the type.
pub open spec fn parse_isize_spec(s: Seq<char>) -> Option<isize> {
    if is_numeral(s) && isize::MIN <= numeral_value(s) <= isize::MAX {
        Some(numeral_value(s) as isize)
    } else {
        None
    }
}

/// A run of digits denotes a number that is not negative.
pub proof fn lemma_digits_value_nonnegative(s: Seq<char>)
    requires
        all_digits(s),
    ensures
        digits_value(s) >= 0,
    decreases s.len(),
{
    if s.len() > 0 {
        lemma_digits_value_nonnegative(s.drop_last());
    }
}

/// The number denoted by the first `k` digits of a run is at most the number
/// denoted by the whole run.
pub proof fn lemma_digits_value_prefix(s: Seq<char>, k: int)
    requires
        all_digits(s),
        0 <= k <= s.len(),
    ensures
        digits_value(s.subrange(0, k)) <= digits_value(s),
    decreases s.len(),
{
    if k == s.len() {
        assert(s.subrange(0, k) =~= s);
    } else {
        let front = s.drop_last();
        lemma_digits_value_prefix(front, k);
        lemma_digits_value_nonnegative(front);
        assert(front.subrange(0, k) =~= s.subrange(0, k));
    }
}

/// A numeral holds ASCII characters only.
pub proof fn lemma_numeral_is_ascii(s: Seq<char>)
    requires
        is_numeral(s),
    ensures
        vstd::utf8::is_ascii_chars(s),
{
    let d = numeral_digits(s);
    assert forall|i: int| 0 <= i < s.len() implies '\0' <= #[trigger] s[i] <= '\u{7f}' by {
        if has_sign(s) {
            if i > 0 {
                assert(is_digit(d[i - 1]));
            }
        } else {
            assert(is_digit(d[i]));
        }
    }
}

/// Reads a signed decimal numeral: an optional `+` or `-`, then one or more
/// ASCII digits and nothing else. Any other text, and a numeral whose value
/// does not fit an `isize`, gives `None`.
pub fn parse_isize(s: &str) -> (r: Option<isize>)
    ensures
        r == parse_isize_spec(s@),
{
    if !s.is_ascii() {
        proof {
            if is_numeral(s@) {
                lemma_numeral_is_ascii(s@);
            }
        }
        return None;
    }
    proof {
        vstd::string::is_ascii_spec_bytes(s);
    }
    let bytes = s.as_bytes();
    let n = bytes.len();
    if n == 0 {
        return None;
    }
    let first = bytes[0];
    let negative = first == MINUS;
    let start: usize = if first == MINUS || first == PLUS {
        1
    } else {
        0
    };
    if start == n {
        return None;
    }
    let ghost digits = numeral_digits(s@);
    let mut acc: isize = 0;
    let mut i: usize = start;
    assert(digits.subrange(0, 0) =~= Seq::<char>::empty());
    while i < n
        invariant
            vstd::utf8::is_ascii_chars(s@),
            n == s@.len(),
            bytes@ =~= Seq::new(s@.len(), |k: int| s@[k] as u8),
            start <= i <= n,
            start == (if has_sign(s@) { 1int } else { 0int }),
            negative == (s@[0] == '-'),
            digits == numeral_digits(s@),
            digits.len() == n - start,
            all_digits(digits.subrange(0, i - start)),
            acc == (if negative {
                -digits_value(digits.subrange(0, i - start))
            } else {
                digits_value(digits.subrange(0, i - start))
            }),
        decreases n - i,
    {
        let b = bytes[i];
        let ghost seen = digits.subrange(0, i - start);
        let ghost next = digits.subrange(0, i - start + 1);
        proof {
            assert(next.drop_last() =~= seen);
            assert(next.last() == s@[i as int]);
            lemma_digits_value_nonnegative(seen);
        }
        if b < ZERO || b > NINE {
            assert(!is_digit(digits[i - start]));
            return None;
        }
        assert(is_digit(s@[i as int])) by {
            assert(bytes@[i as int] == s@[i as int] as u8);
            assert('\0' <= s@[i as int] <= '\u{7f}');
        }
        assert(all_digits(next));
        let d: isize = (b - ZERO) as isize;
        let step = match acc.checked_mul(10) {
            Some(m) => if negative {
                m.checked_sub(d)
            } else {
                m.checked_add(d)
            },
            None => None,
        };
        match step {
            Some(v) => {
                acc = v;
            },
            None => {
                proof {
                    if all_digits(digits) {
                        lemma_digits_value_prefix(digits, i - start + 1);
                    }
                }
                return None;
            },
        }
        i += 1;
    }
    assert(digits.subrange(0, n - start) =~= digits);
    Some(acc)
}

/// The character that stands for the digit `d`.
pub open spec fn digit_char(d: int) -> char
    recommends
        0 <= d < 10,
{
    if d == 0 {
        '0'
    } else if d == 1 {
        '1'
    } else if d == 2 {
        '2'
    } else if d == 3 {
        '3'
    } else if d == 4 {
        '4'
    } else if d == 5 {
        '5'
    } else if d == 6 {
        '6'
    } else if d == 7 {
        '7'
    } else if d == 8 {
        '8'
    } else {
        '9'
    }
}

/// The digits of `n`, most significant first, without leading zeros.
pub open spec fn digits_of(n: nat) -> Seq<char>
    decreases n,
{
    if n < 10 {
        seq![digit_char(n as int)]
    } else {
        digits_of(n / 10).push(digit_char((n % 10) as int))
    }
}

/// The numeral that is written for `n`: its digits, after a `-` where `n` is
/// negative.
pub open spec fn numeral_of(n: int) -> Seq<char> {
    if n < 0 {
        seq!['-'] + digits_of((-n) as nat)
    } else {
        digits_of(n as nat)
    }
}

/// The digits written for a number are a run of digits that denotes it.
pub proof fn lemma_digits_of_denote(n: nat)
    ensures
        digits_of(n).len() > 0,
        all_digits(digits_of(n)),
        digits_value(digits_of(n)) == n,
    decreases n,
{
    let last = digit_char((n % 10) as int);
    assert(is_digit(last) && digit_value(last) == n % 10);
    if n < 10 {
        let one = seq![last];
        assert(one.drop_last() =~= Seq::<char>::empty());
        assert(digits_value(one) == digits_value(one.drop_last()) * 10 + digit_value(one.last()));
    } else {
        lemma_digits_of_denote(n / 10);
        let front = digits_of(n / 10);
        assert(front.push(last).drop_last() =~= front);
        assert(front.push(last).last() == last);
    }
}

/// What is written for an integer is a numeral, and denotes that integer.
pub proof fn lemma_numeral_reads_back(n: int)
    ensures
        is_numeral(numeral_of(n)),
        numeral_value(numeral_of(n)) == n,
        isize::MIN <= n <= isize::MAX ==> parse_isize_spec(numeral_of(n)) == Some(n as isize),
{
    if n < 0 {
        let digits = digits_of((-n) as nat);
        lemma_digits_of_denote((-n) as nat);
        let text = seq!['-'] + digits;
        assert(text[0] == '-');
        assert(numeral_digits(text) =~= digits);
    } else {
        let digits = digits_of(n as nat);
        lemma_digits_of_denote(n as nat);
        assert(is_digit(digits[0]));
        assert(numeral_digits(digits) =~= digits);
    }
}

fn digit_text(d: u8) -> (r: &'static str)
    requires
        d < 10,
    ensures
        r@ == seq![digit_char(d as int)],
{
    proof {
        reveal_strlit("0");
        reveal_strlit("1");
        reveal_strlit("2");
        reveal_strlit("3");
        reveal_strlit("4");
        reveal_strlit("5");
        reveal_strlit("6");
        reveal_strlit("7");
        reveal_strlit("8");
        reveal_strlit("9");
    }
    let r = match d {
        0 => "0",
        1 => "1",
        2 => "2",
        3 => "3",
        4 => "4",
        5 => "5",
        6 => "6",
        7 => "7",
        8 => "8",
        _ => "9",
    };
    assert(r@ =~= seq![digit_char(d as int)]);
    r
}

fn append_digits(out: &mut String, n: u64)
    ensures
        final(out)@ == old(out)@ + digits_of(n as nat),
    decreases n,
{
    if n >= 10 {
        append_digits(out, n / 10);
    }
    out.append(digit_text((n % 10) as u8));
    assert(out@ =~= old(out)@ + digits_of(n as nat));
}

/// Writes `n` as a decimal numeral.
pub fn isize_text(n: isize) -> (r: String)
    ensures
        r@ == numeral_of(n as int),
{
    let mut out = String::new();
    if n < 0 {
        proof {
            reveal_strlit("-");
        }
        out.append("-");
        let m: u64 = (-(n as i128)) as u64;
        append_digits(&mut out, m);
    } else {
        append_digits(&mut out, n as u64);
    }
    assert(out@ =~= numeral_of(n as int));
    out
}

} // verus!
