//! Text building blocks: integers written in decimal and read back, and the
//! path rule by which directory layouts are composed.

use vstd::prelude::*;

verus! {

/// The character that stands for one decimal digit.
pub open spec fn digit_char(d: nat) -> char {
    if d == 0 {
        '0'
    } else if d == 1 {
        '1'
    } else if d == 2 {
        '2'
    } else if d == 3 {
        '3'
    } else if d == 4 {
        '4'
    } else if d == 5 {
        '5'
    } else if d == 6 {
        '6'
    } else if d == 7 {
        '7'
    } else if d == 8 {
        '8'
    } else {
        '9'
    }
}

/// The decimal numeral of `n`, most significant digit first, without
/// leading zeros (`0` itself is the single digit `0`).
pub open spec fn decimal(n: nat) -> Seq<char>
    decreases n,
{
    if n < 10 {
        seq![digit_char(n)]
    } else {
        decimal(n / 10).push(digit_char(n % 10))
    }
}

/// The decimal numeral of a signed integer: a minus sign in front of the
/// numeral of its magnitude when it is negative.
pub open spec fn signed_decimal(i: int) -> Seq<char> {
    if i < 0 {
        seq!['-'] + decimal((-i) as nat)
    } else {
        decimal(i as nat)
    }
}

fn digit_str(d: u64) -> (s: &'static str)
    requires
        d < 10,
    ensures
        s@ == seq![digit_char(d as nat)],
{
    proof {
        reveal_strlit("0");
        reveal_strlit("1");
        reveal_strlit("2");
        reveal_strlit("3");
        reveal_strlit("4");
        reveal_strlit("5");
        reveal_strlit("6");
        reveal_strlit("7");
        reveal_strlit("8");
        reveal_strlit("9");
    }
    let s = if d == 0 {
        "0"
    } else if d == 1 {
        "1"
    } else if d == 2 {
        "2"
    } else if d == 3 {
        "3"
    } else if d == 4 {
        "4"
    } else if d == 5 {
        "5"
    } else if d == 6 {
        "6"
    } else if d == 7 {
        "7"
    } else if d == 8 {
        "8"
    } else {
        "9"
    };
    assert(s@ =~= seq![digit_char(d as nat)]);
    s
}

/// Renders an unsigned integer in decimal.
pub fn decimal_string(n: u64) -> (s: String)
    ensures
        s@ == decimal(n as nat),
    decreases n,
{
    if n < 10 {
        String::from_str(digit_str(n))
    } else {
        let mut s = decimal_string(n / 10);
        s.append(digit_str(n % 10));
        assert(s@ =~= decimal((n / 10) as nat).push(digit_char((n % 10) as nat)));
        s
    }
}

/// Renders a signed integer in decimal.
pub fn signed_decimal_string(i: i64) -> (s: String)
    ensures
        s@ == signed_decimal(i as int),
{
    if i < 0 {
        let magnitude: u64 = if i == i64::MIN {
            9223372036854775808u64
        } else {
            (-i) as u64
        };
        let digits = decimal_string(magnitude);
        let s = String::from_str("-").concat(digits.as_str());
        proof {
            reveal_strlit("-");
            assert("-"@ =~= seq!['-']);
        }
        s
    } else {
        decimal_string(i as u64)
    }
}

/// Whether a path starts at the root.
pub open spec fn is_absolute(path: Seq<char>) -> bool {
    path.len() > 0 && path[0] == '/'
}

/// A path with one more component adjoined: an absolute `child` stands
/// alone; otherwise it follows `base`, after a `/` unless `base` is empty
/// or already ends in one.
pub open spec fn joined(base: Seq<char>, child: Seq<char>) -> Seq<char> {
    if is_absolute(child) {
        child
    } else if base.len() == 0 || base.last() == '/' {
        base + child
    } else {
        base + seq!['/'] + child
    }
}

/// Tells whether `path` starts at the root.
pub fn starts_at_root(path: &str) -> (b: bool)
    ensures
        b == is_absolute(path@),
{
    path.unicode_len() > 0 && path.get_char(0) == '/'
}

/// Adjoins `child` to `base`.
pub fn join(base: &str, child: &str) -> (path: String)
    ensures
        path@ == joined(base@, child@),
{
    if starts_at_root(child) {
        String::from_str(child)
    } else {
        let n = base.unicode_len();
        let path = String::from_str(base);
        if n == 0 || base.get_char(n - 1) == '/' {
            path.concat(child)
        } else {
            proof {
                reveal_strlit("/");
                assert("/"@ =~= seq!['/']);
            }
            path.concat("/").concat(child)
        }
    }
}

/// Two texts, one after the other.
pub fn concat2(a: &str, b: &str) -> (s: String)
    ensures
        s@ == a@ + b@,
{
    String::from_str(a).concat(b)
}

/// Three texts, one after the other.
pub fn concat3(a: &str, b: &str, c: &str) -> (s: String)
    ensures
        s@ == a@ + b@ + c@,
{
    String::from_str(a).concat(b).concat(c)
}

/// The digit that a character stands for, if it is a decimal digit.
pub open spec fn digit_of(c: char) -> Option<nat> {
    if c == '0' {
        Some(0)
    } else if c == '1' {
        Some(1)
    } else if c == '2' {
        Some(2)
    } else if c == '3' {
        Some(3)
    } else if c == '4' {
        Some(4)
    } else if c == '5' {
        Some(5)
    } else if c == '6' {
        Some(6)
    } else if c == '7' {
        Some(7)
    } else if c == '8' {
        Some(8)
    } else if c == '9' {
        Some(9)
    } else {
        None
    }
}

/// The number that a text of decimal digits stands for. A text that is
/// empty or holds anything but digits stands for none. Leading zeros count
/// for nothing.
pub open spec fn numeral_value(s: Seq<char>) -> Option<nat>
    decreases s.len(),
{
    if s.len() == 0 {
        None
    } else {
        match digit_of(s.last()) {
            None => None,
            Some(d) => if s.len() == 1 {
                Some(d)
            } else {
                match numeral_value(s.drop_last()) {
                    Some(high) => Some(10 * high + d),
                    None => None,
                }
            },
        }
    }
}

/// The integer that a text stands for: decimal digits, with `-` or `+` in
/// front if one likes. Anything else stands for none.
pub open spec fn signed_value(s: Seq<char>) -> Option<int> {
    if s.len() > 0 && s[0] == '-' {
        match numeral_value(s.skip(1)) {
            Some(v) => Some(-(v as int)),
            None => None,
        }
    } else if s.len() > 0 && s[0] == '+' {
        match numeral_value(s.skip(1)) {
            Some(v) => Some(v as int),
            None => None,
        }
    } else {
        match numeral_value(s) {
            Some(v) => Some(v as int),
            None => None,
        }
    }
}

/// A text with a character in it that is no digit stands for no number.
pub proof fn lemma_not_a_numeral(s: Seq<char>, at: int)
    requires
        0 <= at < s.len(),
        digit_of(s[at]) is None,
    ensures
        numeral_value(s) is None,
    decreases s.len(),
{
    if at < s.len() - 1 {
        lemma_not_a_numeral(s.drop_last(), at);
    }
}

/// The digits that come first never stand for more than the whole.
pub proof fn lemma_numeral_grows(s: Seq<char>, k: int)
    requires
        0 < k <= s.len(),
        numeral_value(s) is Some,
    ensures
        numeral_value(s.take(k)) is Some,
        numeral_value(s.take(k))->Some_0 <= numeral_value(s)->Some_0,
    decreases s.len(),
{
    if k == s.len() {
        assert(s.take(k) =~= s);
    } else {
        assert(s.drop_last().take(k) =~= s.take(k));
        lemma_numeral_grows(s.drop_last(), k);
    }
}

/// The numeral of a number stands for that number, and starts with a
/// digit.
pub proof fn lemma_numeral_of_decimal(n: nat)
    ensures
        numeral_value(decimal(n)) == Some(n),
        decimal(n).len() > 0,
        digit_of(decimal(n)[0]) is Some,
    decreases n,
{
    if n >= 10 {
        lemma_numeral_of_decimal(n / 10);
        let high = decimal(n / 10);
        let all = decimal(n);
        assert(all.drop_last() =~= high);
        assert(all.last() == digit_char(n % 10));
        assert(all[0] == high[0]);
    }
}

/// Reading what [`signed_decimal`] wrote gives the number back.
pub proof fn lemma_signed_round_trip(i: int)
    ensures
        signed_value(signed_decimal(i)) == Some(i),
{
    if i < 0 {
        lemma_numeral_of_decimal((-i) as nat);
        assert(signed_decimal(i).skip(1) =~= decimal((-i) as nat));
    } else {
        lemma_numeral_of_decimal(i as nat);
    }
}

fn digit_value(c: char) -> (d: Option<u64>)
    ensures
        match digit_of(c) {
            Some(v) => d == Some(v as u64),
            None => d is None,
        },
{
    if c == '0' {
        Some(0)
    } else if c == '1' {
        Some(1)
    } else if c == '2' {
        Some(2)
    } else if c == '3' {
        Some(3)
    } else if c == '4' {
        Some(4)
    } else if c == '5' {
        Some(5)
    } else if c == '6' {
        Some(6)
    } else if c == '7' {
        Some(7)
    } else if c == '8' {
        Some(8)
    } else if c == '9' {
        Some(9)
    } else {
        None
    }
}

/// Reads the digits of `text` from its character `from` on: the number
/// they stand for if it is at most `limit`, nothing otherwise.
pub fn parse_digits(text: &str, from: usize, limit: u64) -> (value: Option<u64>)
    ensures
        match numeral_value(text@.skip(from as int)) {
            Some(v) => if from <= text@.len() && v <= limit {
                value == Some(v as u64)
            } else {
                value is None
            },
            None => value is None,
        },
{
    let n = text.unicode_len();
    if from >= n {
        assert(from == n ==> text@.skip(from as int).len() == 0);
        return None;
    }
    let ghost tail = text@.skip(from as int);
    let mut acc: u64 = 0;
    let mut i: usize = from;
    while i < n
        invariant
            from <= i <= n,
            n == text@.len(),
            tail == text@.skip(from as int),
            i == from ==> acc == 0,
            i > from ==> numeral_value(tail.take(i - from)) == Some(acc as nat),
            acc <= limit,
        decreases n - i,
    {
        let c = text.get_char(i);
        let ghost next = tail.take(i + 1 - from);
        proof {
            assert(next.last() == c);
            assert(next.drop_last() =~= tail.take(i - from));
        }
        match digit_value(c) {
            None => {
                proof {
                    lemma_not_a_numeral(tail, i - from);
                }
                return None;
            },
            Some(d) => {
                if d > limit || acc > (limit - d) / 10 {
                    proof {
                        assert(numeral_value(next) == Some((10 * acc + d) as nat));
                        assert(10 * acc + d > limit);
                        if numeral_value(tail) is Some {
                            lemma_numeral_grows(tail, i + 1 - from);
                        }
                    }
                    return None;
                }
                acc = acc * 10 + d;
            },
        }
        i = i + 1;
    }
    assert(tail.take(n - from) =~= tail);
    Some(acc)
}

/// Reads a signed 64-bit integer from its decimal text, with `-` or `+`
/// in front if one likes: the integer if the text stands for one that
/// fits, nothing otherwise.
pub fn parse_signed(text: &str) -> (value: Option<i64>)
    ensures
        match signed_value(text@) {
            Some(v) => if i64::MIN <= v <= i64::MAX {
                value == Some(v as i64)
            } else {
                value is None
            },
            None => value is None,
        },
{
    let n = text.unicode_len();
    if n > 0 && text.get_char(0) == '-' {
        match parse_digits(text, 1, 0x8000_0000_0000_0000u64) {
            Some(v) => if v == 0x8000_0000_0000_0000u64 {
                Some(i64::MIN)
            } else {
                Some(-(v as i64))
            },
            None => None,
        }
    } else if n > 0 && text.get_char(0) == '+' {
        match parse_digits(text, 1, 0x7fff_ffff_ffff_ffffu64) {
            Some(v) => Some(v as i64),
            None => None,
        }
    } else {
        assert(text@.skip(0) =~= text@);
        match parse_digits(text, 0, 0x7fff_ffff_ffff_ffffu64) {
            Some(v) => Some(v as i64),
            None => None,
        }
    }
}

} // verus!
