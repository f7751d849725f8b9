//! Decimal text of 64-bit signed integers, as `str::parse::<i64>` reads it
//! and as `Display` writes it.
use vstd::prelude::*;

verus! {

/// `c` is an ASCII decimal digit.
pub open spec fn is_digit(c: char) -> bool {
    '0' <= c && c <= '9'
}

/// Every character of `s` is an ASCII decimal digit.
pub open spec fn all_digits(s: Seq<char>) -> bool {
    forall|i: int| 0 <= i < s.len() ==> is_digit(#[trigger] s[i])
}

/// The value of a digit character.
pub open spec fn digit_value(c: char) -> int {
    (c as int) - ('0' as int)
}

/// The number that a string of decimal digits denotes (most significant first).
pub open spec fn digits_value(s: Seq<char>) -> int
    decreases s.len(),
{
    if s.len() == 0 {
        0
    } else {
        digits_value(s.drop_last()) * 10 + digit_value(s.last())
    }
}

/// What `str::parse::<i64>` gives back for the text `s`: an optional `+` or `-`
/// followed by one or more ASCII digits, whose value fits in an `i64`.
pub open spec fn spec_parse_i64(s: Seq<char>) -> Option<int> {
    let negative = s.len() > 0 && s[0] == '-';
    let signed = s.len() > 0 && (s[0] == '-' || s[0] == '+');
    let body = if signed { s.drop_first() } else { s };
    if body.len() == 0 || !all_digits(body) {
        None
    } else {
        let v: int = if negative { -digits_value(body) } else { digits_value(body) };
        if i64::MIN <= v && v <= i64::MAX { Some(v) } else { None }
    }
}

/// The digit character for `d < 10`.
pub open spec fn digit_char(d: nat) -> char {
    (('0' as nat) + d) as char
}

/// The shortest decimal text of a natural number.
pub open spec fn nat_text(n: nat) -> Seq<char>
    decreases n,
{
    if n < 10 {
        seq![digit_char(n)]
    } else {
        nat_text(n / 10).push(digit_char(n % 10))
    }
}

/// What `Display` writes for the integer `v`: a `-` before the magnitude when
/// `v` is negative, then its shortest decimal text.
pub open spec fn int_text(v: int) -> Seq<char> {
    if v < 0 {
        seq!['-'] + nat_text((-v) as nat)
    } else {
        nat_text(v as nat)
    }
}

proof fn lemma_digit_char(d: nat)
    requires
        d < 10,
    ensures
        is_digit(digit_char(d)),
        digit_value(digit_char(d)) == d,
{
}

proof fn lemma_nat_text(n: nat)
    ensures
        nat_text(n).len() > 0,
        all_digits(nat_text(n)),
        digits_value(nat_text(n)) == n,
    decreases n,
{
    lemma_digit_char(n % 10);
    if n < 10 {
        let s = nat_text(n);
        assert(s.drop_last() =~= Seq::<char>::empty());
        assert(s.last() == digit_char(n));
        assert(digits_value(s) == digits_value(s.drop_last()) * 10 + digit_value(s.last()));
        assert(is_digit(s[0]));
    } else {
        lemma_nat_text(n / 10);
        let s = nat_text(n);
        assert(s.drop_last() =~= nat_text(n / 10));
        assert(s.last() == digit_char(n % 10));
        assert((n / 10) * 10 + n % 10 == n);
        assert(digits_value(s) == digits_value(s.drop_last()) * 10 + digit_value(s.last()));
        assert forall|i: int| 0 <= i < s.len() implies is_digit(#[trigger] s[i]) by {
            if i < s.len() - 1 {
                assert(s[i] == nat_text(n / 10)[i]);
            }
        }
    }
}

/// The text written for `v` is its magnitude in decimal digits, most
/// significant first and without leading zeros, behind a `-` exactly when
/// `v` is negative.
pub proof fn lemma_int_text_shape(v: int)
    ensures
        v >= 0 ==> all_digits(int_text(v)) && digits_value(int_text(v)) == v && int_text(v).len()
            > 0 && (int_text(v).len() > 1 ==> int_text(v)[0] != '0'),
        v < 0 ==> int_text(v).len() > 1 && int_text(v)[0] == '-' && all_digits(
            int_text(v).drop_first(),
        ) && digits_value(int_text(v).drop_first()) == -v && int_text(v)[1] != '0',
{
    let m: nat = if v < 0 { (-v) as nat } else { v as nat };
    lemma_nat_text(m);
    lemma_nat_text_leading(m);
    if v < 0 {
        assert(int_text(v).drop_first() =~= nat_text(m));
        assert(int_text(v)[1] == nat_text(m)[0]);
    }
}

proof fn lemma_nat_text_leading(n: nat)
    ensures
        nat_text(n).len() > 1 ==> nat_text(n)[0] != '0',
        n > 0 ==> nat_text(n)[0] != '0',
    decreases n,
{
    lemma_nat_text(n);
    if n >= 10 {
        lemma_nat_text_leading(n / 10);
        assert(nat_text(n)[0] == nat_text(n / 10)[0]);
    } else {
        lemma_digit_char(n);
    }
}

/// A text that is a sign-free or signed string of digits reads as its
/// value when that fits in an `i64`; a text with any other character after
/// the first, or that is empty, or that is a lone sign, reads as nothing.
pub proof fn lemma_parse_reads_digits(s: Seq<char>)
    ensures
        s.len() > 0 && all_digits(s) && digits_value(s) <= i64::MAX ==> spec_parse_i64(s) == Some(
            digits_value(s),
        ),
        s.len() > 1 && s[0] == '-' && all_digits(s.drop_first()) && digits_value(s.drop_first())
            <= 9223372036854775808 ==> spec_parse_i64(s) == Some(-digits_value(s.drop_first())),
        s.len() > 1 && s[0] == '+' && all_digits(s.drop_first()) && digits_value(s.drop_first())
            <= i64::MAX ==> spec_parse_i64(s) == Some(digits_value(s.drop_first())),
        s.len() == 0 ==> spec_parse_i64(s) is None,
        s.len() == 1 && !is_digit(s[0]) ==> spec_parse_i64(s) is None,
        (exists|i: int| 0 < i < s.len() && !is_digit(#[trigger] s[i])) ==> spec_parse_i64(s) is None,
        s.len() > 0 && !is_digit(s[0]) && s[0] != '-' && s[0] != '+' ==> spec_parse_i64(s) is None,
{
    if s.len() > 0 && all_digits(s) {
        lemma_digits_value_nonneg(s);
    }
    if s.len() > 1 && all_digits(s.drop_first()) {
        lemma_digits_value_nonneg(s.drop_first());
    }
    if exists|i: int| 0 < i < s.len() && !is_digit(#[trigger] s[i]) {
        let i = choose|i: int| 0 < i < s.len() && !is_digit(#[trigger] s[i]);
        assert(s.drop_first()[i - 1] == s[i]);
        assert(!all_digits(s));
        assert(!all_digits(s.drop_first()));
    }
    if s.len() > 0 && !is_digit(s[0]) {
        assert(!all_digits(s));
    }
}

/// Reading back the text that `Display` writes for an `i64` gives the same
/// number: `int_text(v).parse::<i64>() == Ok(v)`.
pub proof fn lemma_parse_int_text(v: i64)
    ensures
        spec_parse_i64(int_text(v as int)) == Some(v as int),
{
    if v < 0 {
        let m: nat = (-(v as int)) as nat;
        lemma_nat_text(m);
        let s = int_text(v as int);
        assert(s.drop_first() =~= nat_text(m));
        assert(s[0] == '-');
    } else {
        lemma_nat_text(v as nat);
        let s = int_text(v as int);
        assert(is_digit(s[0]));
    }
}

proof fn lemma_digits_value_push(s: Seq<char>, c: char)
    ensures
        digits_value(s.push(c)) == digits_value(s) * 10 + digit_value(c),
{
    assert(s.push(c).drop_last() =~= s);
}

proof fn lemma_digits_value_nonneg(s: Seq<char>)
    requires
        all_digits(s),
    ensures
        digits_value(s) >= 0,
    decreases s.len(),
{
    if s.len() > 0 {
        assert(is_digit(s[s.len() - 1]));
        lemma_digits_value_nonneg(s.drop_last());
    }
}

proof fn lemma_digits_value_grows(s: Seq<char>, n: int)
    requires
        all_digits(s),
        0 <= n <= s.len(),
    ensures
        digits_value(s.take(n)) <= digits_value(s),
    decreases s.len() - n,
{
    if n == s.len() {
        assert(s.take(n) =~= s);
    } else {
        lemma_digits_value_grows(s, n + 1);
        assert(all_digits(s.take(n))) by {
            assert forall|i: int| 0 <= i < n implies is_digit(#[trigger] s.take(n)[i]) by {
                assert(s.take(n)[i] == s[i]);
            }
        }
        assert(s.take(n + 1) =~= s.take(n).push(s[n]));
        lemma_digits_value_push(s.take(n), s[n]);
        assert(is_digit(s[n]));
        lemma_digits_value_nonneg(s.take(n));
    }
}

/// Parse decimal text as `str::parse::<i64>` does; `None` on any error.
pub fn parse_i64(s: &str) -> (res: Option<i64>)
    ensures
        res matches Some(v) ==> spec_parse_i64(s@) == Some(v as int),
        res is None ==> spec_parse_i64(s@) is None,
{
    let n = s.unicode_len();
    if n == 0 {
        return None;
    }
    let first = s.get_char(0);
    let negative = first == '-';
    let start: usize = if first == '-' || first == '+' { 1 } else { 0 };
    if start == n {
        return None;
    }
    let ghost body = if start == 1 { s@.drop_first() } else { s@ };
    assert(body =~= s@.subrange(start as int, n as int));
    assert(body == (if s@.len() > 0 && (s@[0] == '-' || s@[0] == '+') { s@.drop_first() } else { s@ }));
    // magnitude limit: 2^63 for negative numbers, 2^63 - 1 otherwise
    let limit: u64 = if negative { 9223372036854775808u64 } else { 9223372036854775807u64 };
    let mut acc: u64 = 0;
    let mut i: usize = start;
    while i < n
        invariant
            n == s@.len(),
            start <= i <= n,
            start == 0 || start == 1,
            start == 1 <==> (s@[0] == '-' || s@[0] == '+'),
            negative <==> s@[0] == '-',
            body == s@.subrange(start as int, n as int),
            limit == (if negative { 9223372036854775808u64 } else { 9223372036854775807u64 }),
            all_digits(body.take(i - start)),
            acc == digits_value(body.take(i - start)),
            acc <= limit,
        decreases n - i,
    {
        let c = s.get_char(i);
        let k: usize = (i - start) as usize;
        assert(body[k as int] == c);
        assert(body.take(k + 1) =~= body.take(k as int).push(c));
        proof {
            lemma_digits_value_push(body.take(k as int), c);
        }
        if !('0' <= c && c <= '9') {
            assert(!all_digits(body));
            return None;
        }
        let d: u64 = (c as u64) - ('0' as u64);
        if acc > (limit - d) / 10 {
            // acc * 10 + d > limit, and more digits only make the value larger
            proof {
                assert(acc * 10 + d > limit) by (nonlinear_arith)
                    requires acc > (limit - d) / 10, d <= 9, limit >= 9;
                if all_digits(body) {
                    lemma_digits_value_grows(body, k + 1);
                    assert(digits_value(body) > limit);
                }
                assert(s@.subrange(1, n as int) =~= s@.drop_first());
                assert(s@.subrange(0, n as int) =~= s@);
                assert(spec_parse_i64(s@) is None);
            }
            return None;
        }
        assert(acc * 10 + d <= limit) by (nonlinear_arith)
            requires acc <= (limit - d) / 10, d <= 9, limit >= 9;
        acc = acc * 10 + d;
        i = i + 1;
    }
    assert(body.take(n - start) =~= body);
    if negative {
        if acc == 9223372036854775808u64 {
            Some(-9223372036854775807i64 - 1)
        } else {
            Some(-(acc as i64))
        }
    } else {
        Some(acc as i64)
    }
}

fn digit_str(d: u64) -> (r: &'static str)
    requires
        d < 10,
    ensures
        r@ == seq![digit_char(d as nat)],
{
    proof {
        reveal_strlit("0");
        reveal_strlit("1");
        reveal_strlit("2");
        reveal_strlit("3");
        reveal_strlit("4");
        reveal_strlit("5");
        reveal_strlit("6");
        reveal_strlit("7");
        reveal_strlit("8");
        reveal_strlit("9");
    }
    match d {
        0 => "0",
        1 => "1",
        2 => "2",
        3 => "3",
        4 => "4",
        5 => "5",
        6 => "6",
        7 => "7",
        8 => "8",
        _ => "9",
    }
}

fn push_nat_text(out: &mut String, n: u64)
    ensures
        final(out)@ == old(out)@ + nat_text(n as nat),
    decreases n,
{
    if n >= 10 {
        push_nat_text(out, n / 10);
    }
    out.append(digit_str(n % 10));
    proof {
        if n >= 10 {
            assert(nat_text(n as nat) == nat_text((n / 10) as nat).push(digit_char((n % 10) as nat)));
        }
    }
}

/// The decimal text of `v`, as `format!("{}", v)` writes it.
pub fn i64_to_text(v: i64) -> (res: String)
    ensures
        res@ == int_text(v as int),
{
    let mut out = String::new();
    if v < 0 {
        proof {
            reveal_strlit("-");
        }
        out.append("-");
        let m: u64 = if v == i64::MIN { 9223372036854775808u64 } else { (-v) as u64 };
        push_nat_text(&mut out, m);
    } else {
        push_nat_text(&mut out, v as u64);
    }
    out
}

} // verus!
