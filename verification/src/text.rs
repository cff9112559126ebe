//! Decimal numbers and small string tests, as Discord's wire formats use them.
use vstd::prelude::*;
use vstd::string::*;

verus! {

/// The text pairs that a list of pairs of strings stands for.
pub open spec fn text_pairs(v: Seq<(String, String)>) -> Seq<(Seq<char>, Seq<char>)> {
    v.map_values(|p: (String, String)| (p.0@, p.1@))
}

/// Whether `c` is an ASCII decimal digit.
pub open spec fn is_digit(c: char) -> bool {
    '0' <= c && c <= '9'
}

/// The value of the ASCII digit `c`.
pub open spec fn digit_value(c: char) -> nat {
    (c as int - '0' as int) as nat
}

/// The ASCII digit that stands for `d` (for `d < 10`).
pub open spec fn digit_char(d: nat) -> char {
    (d + '0' as nat) as char
}

/// Whether every character of `s` is an ASCII digit.
pub open spec fn all_digits(s: Seq<char>) -> bool {
    forall|i: int| 0 <= i < s.len() ==> is_digit(#[trigger] s[i])
}

/// The number that the digit string `s` denotes, most significant digit first.
pub open spec fn digits_value(s: Seq<char>) -> nat
    decreases s.len(),
{
    if s.len() == 0 {
        0
    } else {
        digits_value(s.drop_last()) * 10 + digit_value(s.last())
    }
}

/// What `str::parse::<u64>` accepts and gives: an optional `+`, then one or more
/// ASCII digits whose value fits in a `u64`.
pub open spec fn spec_parse_u64(s: Seq<char>) -> Option<u64> {
    let body = if s.len() > 0 && s[0] == '+' { s.drop_first() } else { s };
    if body.len() > 0 && all_digits(body) && digits_value(body) <= u64::MAX {
        Some(digits_value(body) as u64)
    } else {
        None
    }
}

/// What `str::parse::<i64>` accepts and gives: an optional `+` or `-`, then one or
/// more ASCII digits whose signed value fits in an `i64`.
pub open spec fn spec_parse_i64(s: Seq<char>) -> Option<i64> {
    let negative = s.len() > 0 && s[0] == '-';
    let body = if s.len() > 0 && (s[0] == '+' || s[0] == '-') { s.drop_first() } else { s };
    if body.len() == 0 || !all_digits(body) {
        None
    } else if negative {
        if digits_value(body) <= 0x8000_0000_0000_0000 {
            Some((0 - digits_value(body)) as i64)
        } else {
            None
        }
    } else if digits_value(body) <= i64::MAX {
        Some(digits_value(body) as i64)
    } else {
        None
    }
}

/// The shortest decimal representation of `n`, as `u64::to_string` writes it.
pub open spec fn spec_decimal(n: nat) -> Seq<char>
    decreases n,
{
    if n < 10 {
        seq![digit_char(n)]
    } else {
        spec_decimal(n / 10) + seq![digit_char(n % 10)]
    }
}

/// Whether `prefix` is a prefix of `s`.
pub open spec fn spec_starts_with(s: Seq<char>, prefix: Seq<char>) -> bool {
    prefix.len() <= s.len() && s.subrange(0, prefix.len() as int) == prefix
}

/// Whether `suffix` is a suffix of `s`.
pub open spec fn spec_ends_with(s: Seq<char>, suffix: Seq<char>) -> bool {
    suffix.len() <= s.len() && s.subrange(s.len() - suffix.len(), s.len() as int) == suffix
}

/// Extending a digit string never lowers its value.
pub proof fn lemma_digits_value_prefix_le(s: Seq<char>, i: int, j: int)
    requires
        0 <= i <= j <= s.len(),
    ensures
        digits_value(s.take(i)) <= digits_value(s.take(j)),
    decreases j - i,
{
    if i < j {
        lemma_digits_value_prefix_le(s, i, j - 1);
        assert(s.take(j).drop_last() =~= s.take(j - 1));
    }
}

/// Parses the digits of `s` from index `start` on; `None` when a character is not a
/// digit, when there is none, or when the value leaves the `u64` range.
fn parse_digits(s: &str, start: usize) -> (res: Option<u64>)
    requires
        start <= s@.len(),
    ensures
        ({
            let body = s@.skip(start as int);
            match res {
                Some(v) => body.len() > 0 && all_digits(body) && v == digits_value(body),
                None => !(body.len() > 0 && all_digits(body) && digits_value(body) <= u64::MAX),
            }
        }),
{
    let len = s.unicode_len();
    let ghost body = s@.skip(start as int);
    if start >= len {
        return None;
    }
    let mut acc: u64 = 0;
    let mut i = start;
    while i < len
        invariant
            len == s@.len(),
            start <= i <= len,
            body == s@.skip(start as int),
            all_digits(body.take(i - start)),
            acc == digits_value(body.take(i - start)),
        decreases len - i,
    {
        let c = s.get_char(i);
        proof {
            assert(body[i - start] == c);
            assert(body.take(i - start + 1).drop_last() =~= body.take(i - start));
        }
        if !('0' <= c && c <= '9') {
            assert(!all_digits(body));
            return None;
        }
        let d = (c as u32 - '0' as u32) as u64;
        assert(d == digit_value(c));
        let next = match acc.checked_mul(10) {
            Some(m) => m.checked_add(d),
            None => None,
        };
        match next {
            Some(v) => {
                acc = v;
                i = i + 1;
                proof {
                    assert forall|k: int| 0 <= k < body.take(i - start).len() implies is_digit(
                        #[trigger] body.take(i - start)[k],
                    ) by {
                        if k < i - 1 - start {
                            assert(body.take(i - 1 - start)[k] == body.take(i - start)[k]);
                        }
                    }
                }
            },
            None => {
                proof {
                    assert(digits_value(body.take(i - start + 1)) > u64::MAX);
                    lemma_digits_value_prefix_le(body, i - start + 1, body.len() as int);
                    assert(body.take(body.len() as int) =~= body);
                }
                return None;
            },
        }
    }
    assert(body.take(len - start) =~= body);
    Some(acc)
}

/// Parses `s` as `str::parse::<u64>` does.
pub fn parse_u64(s: &str) -> (res: Option<u64>)
    ensures
        res == spec_parse_u64(s@),
{
    let len = s.unicode_len();
    let start: usize = if len > 0 && s.get_char(0) == '+' { 1 } else { 0 };
    proof {
        if start == 1 {
            assert(s@.skip(1) =~= s@.drop_first());
        } else {
            assert(s@.skip(0) =~= s@);
        }
    }
    parse_digits(s, start)
}

/// Parses `s` as `str::parse::<i64>` does.
pub fn parse_i64(s: &str) -> (res: Option<i64>)
    ensures
        res == spec_parse_i64(s@),
{
    let len = s.unicode_len();
    let negative = len > 0 && s.get_char(0) == '-';
    let signed = len > 0 && (s.get_char(0) == '+' || s.get_char(0) == '-');
    let start: usize = if signed { 1 } else { 0 };
    proof {
        if start == 1 {
            assert(s@.skip(1) =~= s@.drop_first());
        } else {
            assert(s@.skip(0) =~= s@);
        }
    }
    match parse_digits(s, start) {
        Some(v) => {
            if negative {
                if v <= 0x8000_0000_0000_0000u64 {
                    if v == 0x8000_0000_0000_0000u64 {
                        Some(i64::MIN)
                    } else {
                        Some(0 - (v as i64))
                    }
                } else {
                    None
                }
            } else if v <= i64::MAX as u64 {
                Some(v as i64)
            } else {
                None
            }
        },
        None => None,
    }
}

/// The one-character string of the digit `d`.
fn digit_str(d: u64) -> (s: &'static str)
    requires
        d < 10,
    ensures
        s@ == seq![digit_char(d as nat)],
{
    proof {
        reveal_strlit("0");
        reveal_strlit("1");
        reveal_strlit("2");
        reveal_strlit("3");
        reveal_strlit("4");
        reveal_strlit("5");
        reveal_strlit("6");
        reveal_strlit("7");
        reveal_strlit("8");
        reveal_strlit("9");
    }
    match d {
        0 => "0",
        1 => "1",
        2 => "2",
        3 => "3",
        4 => "4",
        5 => "5",
        6 => "6",
        7 => "7",
        8 => "8",
        _ => "9",
    }
}

/// Writes `n` in decimal, as `u64::to_string` does.
pub fn u64_to_string(n: u64) -> (s: String)
    ensures
        s@ == spec_decimal(n as nat),
    decreases n,
{
    if n < 10 {
        digit_str(n).to_owned()
    } else {
        let mut s = u64_to_string(n / 10);
        s.append(digit_str(n % 10));
        s
    }
}

/// Writes `n` in decimal with a leading `-` when it is negative, as `i64::to_string` does.
pub fn i64_to_string(n: i64) -> (s: String)
    ensures
        n >= 0 ==> s@ == spec_decimal(n as nat),
        n < 0 ==> s@ == seq!['-'] + spec_decimal((0 - n) as nat),
{
    if n >= 0 {
        u64_to_string(n as u64)
    } else {
        let magnitude: u64 = if n == i64::MIN { 0x8000_0000_0000_0000u64 } else { (0 - n) as u64 };
        let mut s = "-".to_owned();
        proof {
            reveal_strlit("-");
        }
        let digits = u64_to_string(magnitude);
        s.append(digits.as_str());
        s
    }
}

/// A digit's character stands for that digit.
pub proof fn lemma_digit_char(d: nat)
    requires
        d < 10,
    ensures
        is_digit(digit_char(d)),
        digit_value(digit_char(d)) == d,
        digit_char(d) != '+',
        digit_char(d) != '-',
{
    assert((d + '0' as nat) as char as int == d + '0' as nat);
}

/// The decimal form of a number is made of digits and denotes the number.
pub proof fn lemma_decimal_digits(n: nat)
    ensures
        spec_decimal(n).len() > 0,
        all_digits(spec_decimal(n)),
        digits_value(spec_decimal(n)) == n,
        spec_decimal(n)[0] != '+',
        spec_decimal(n)[0] != '-',
    decreases n,
{
    if n < 10 {
        let s = spec_decimal(n);
        lemma_digit_char(n);
        assert(s.drop_last() =~= Seq::<char>::empty());
        assert(digits_value(Seq::<char>::empty()) == 0);
        assert(digits_value(s) == digits_value(s.drop_last()) * 10 + digit_value(s.last()));
    } else {
        lemma_decimal_digits(n / 10);
        lemma_digit_char(n % 10);
        let s = spec_decimal(n);
        let p = spec_decimal(n / 10);
        assert(s.drop_last() =~= p);
        assert(s.last() == digit_char(n % 10));
        assert(n == (n / 10) * 10 + n % 10);
        assert(digits_value(s) == digits_value(p) * 10 + digit_value(s.last()));
        assert forall|i: int| 0 <= i < s.len() implies is_digit(#[trigger] s[i]) by {
            if i < p.len() {
                assert(s[i] == p[i]);
            }
        }
    }
}

/// Writing a `u64` in decimal and parsing it back gives the same number.
pub proof fn lemma_parse_decimal_u64(n: u64)
    ensures
        spec_parse_u64(spec_decimal(n as nat)) == Some(n),
{
    lemma_decimal_digits(n as nat);
}

/// Whether `s` starts with `prefix`.
pub fn starts_with(s: &str, prefix: &str) -> (res: bool)
    ensures
        res == spec_starts_with(s@, prefix@),
{
    let n = s.unicode_len();
    let m = prefix.unicode_len();
    if m > n {
        return false;
    }
    let mut i: usize = 0;
    while i < m
        invariant
            n == s@.len(),
            m == prefix@.len(),
            m <= n,
            i <= m,
            forall|k: int| 0 <= k < i ==> s@[k] == prefix@[k],
        decreases m - i,
    {
        if s.get_char(i) != prefix.get_char(i) {
            assert(s@.subrange(0, m as int)[i as int] != prefix@[i as int]);
            return false;
        }
        i = i + 1;
    }
    assert(s@.subrange(0, m as int) =~= prefix@);
    true
}

/// Whether `s` ends with `suffix`.
pub fn ends_with(s: &str, suffix: &str) -> (res: bool)
    ensures
        res == spec_ends_with(s@, suffix@),
{
    let n = s.unicode_len();
    let m = suffix.unicode_len();
    if m > n {
        return false;
    }
    let off = n - m;
    let mut i: usize = 0;
    while i < m
        invariant
            n == s@.len(),
            m == suffix@.len(),
            m <= n,
            off == n - m,
            i <= m,
            forall|k: int| 0 <= k < i ==> s@[off + k] == suffix@[k],
        decreases m - i,
    {
        if s.get_char(off + i) != suffix.get_char(i) {
            assert(s@.subrange(off as int, n as int)[i as int] != suffix@[i as int]);
            return false;
        }
        i = i + 1;
    }
    assert(s@.subrange(off as int, n as int) =~= suffix@);
    true
}

/// Whether two strings hold the same characters.
pub fn str_eq(a: &str, b: &str) -> (res: bool)
    ensures
        res == (a@ == b@),
{
    let n = a.unicode_len();
    if n != b.unicode_len() {
        return false;
    }
    let r = starts_with(a, b);
    proof {
        if r {
            assert(a@.subrange(0, n as int) =~= a@);
        } else {
            assert(a@.subrange(0, n as int) =~= a@);
        }
    }
    r
}

/// What `str::replace` gives for a non-empty pattern `from`: every non-overlapping
/// occurrence of `from` in `s`, found from left to right, replaced by `to`.
pub open spec fn spec_replace(s: Seq<char>, from: Seq<char>, to: Seq<char>) -> Seq<char>
    decreases s.len(),
{
    if s.len() == 0 {
        Seq::empty()
    } else if from.len() > 0 && from.len() <= s.len() && s.take(from.len() as int) == from {
        to + spec_replace(s.skip(from.len() as int), from, to)
    } else {
        seq![s[0]] + spec_replace(s.drop_first(), from, to)
    }
}

/// Replaces every occurrence of the non-empty pattern `from` in `s` by `to`, as
/// `str::replace` does.
pub fn replace(s: &str, from: &str, to: &str) -> (r: String)
    requires
        from@.len() > 0,
    ensures
        r@ == spec_replace(s@, from@, to@),
{
    let n = s.unicode_len();
    let m = from.unicode_len();
    let mut out = String::new();
    let mut i: usize = 0;
    proof {
        assert(s@.skip(0) =~= s@);
    }
    while i < n
        invariant
            n == s@.len(),
            m == from@.len(),
            m > 0,
            i <= n,
            out@ + spec_replace(s@.skip(i as int), from@, to@) == spec_replace(s@, from@, to@),
        decreases n - i,
    {
        let ghost rest = s@.skip(i as int);
        let mut matched = m <= n - i;
        let mut k: usize = 0;
        while matched && k < m
            invariant
                n == s@.len(),
                m == from@.len(),
                i <= n,
                rest == s@.skip(i as int),
                k <= m,
                matched ==> m <= n - i,
                matched ==> forall|j: int| 0 <= j < k ==> rest[j] == from@[j],
                !matched ==> !(m <= rest.len() && rest.take(m as int) == from@),
            decreases (m - k) + (if matched { 1int } else { 0int }),
        {
            if s.get_char(i + k) != from.get_char(k) {
                matched = false;
                proof {
                    assert(rest[k as int] == s@[i + k]);
                    if m <= rest.len() && rest.take(m as int) == from@ {
                        assert(rest.take(m as int)[k as int] == rest[k as int]);
                    }
                }
            } else {
                k = k + 1;
            }
        }
        if matched {
            proof {
                assert(rest.take(m as int) =~= from@);
                assert(rest.skip(m as int) =~= s@.skip(i + m));
            }
            out.append(to);
            i = i + m;
        } else {
            let c = s.substring_char(i, i + 1);
            proof {
                assert(rest[0] == s@[i as int]);
                assert(c@ =~= seq![rest[0]]);
                assert(rest.drop_first() =~= s@.skip(i + 1));
            }
            out.append(c);
            i = i + 1;
        }
        proof {
            assert(out@ + spec_replace(s@.skip(i as int), from@, to@) == spec_replace(s@, from@, to@));
        }
    }
    proof {
        assert(s@.skip(n as int) =~= Seq::<char>::empty());
        assert(out@ + Seq::<char>::empty() =~= out@);
    }
    out
}

} // verus!
