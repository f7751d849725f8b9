//! Looking a user up by the UUID text of its identifier.
use vstd::prelude::*;

use crate::database::models::users::User;
use crate::database::queries::{is_hyphen_position, is_lower_hex, is_v4_uuid_text};

verus! {

/// `c` is a hexadecimal digit, in either case.
pub open spec fn is_hex(c: char) -> bool {
    ('0' <= c && c <= '9') || ('a' <= c && c <= 'f') || ('A' <= c && c <= 'F')
}

/// The value of the hexadecimal digit `c`.
pub open spec fn hex_digit_value(c: char) -> int {
    if '0' <= c && c <= '9' {
        (c as int) - ('0' as int)
    } else if 'a' <= c && c <= 'f' {
        (c as int) - ('a' as int) + 10
    } else {
        (c as int) - ('A' as int) + 10
    }
}

/// The number that hexadecimal digits denote, most significant first.
pub open spec fn hex_value(s: Seq<char>) -> int
    decreases s.len(),
{
    if s.len() == 0 {
        0
    } else {
        hex_value(s.drop_last()) * 16 + hex_digit_value(s.last())
    }
}

/// Every character of `s` is a hexadecimal digit.
pub open spec fn all_hex(s: Seq<char>) -> bool {
    forall|i: int| 0 <= i < s.len() ==> is_hex(#[trigger] s[i])
}

/// The 32 digits of a hyphenated UUID text (8-4-4-4-12 hexadecimal digits
/// with hyphens between the groups), `None` when `s` is not one.
pub open spec fn hyphenated_digits(s: Seq<char>) -> Option<Seq<char>> {
    if s.len() == 36 && (forall|i: int|
        0 <= i < 36 ==> if is_hyphen_position(i) {
            s[i] == '-'
        } else {
            is_hex(#[trigger] s[i])
        }) {
        Some(
            s.subrange(0, 8) + s.subrange(9, 13) + s.subrange(14, 18) + s.subrange(19, 23)
                + s.subrange(24, 36),
        )
    } else {
        None
    }
}

/// `c` in ASCII lower case.
pub open spec fn ascii_lower(c: char) -> char {
    if 'A' <= c && c <= 'Z' {
        ((c as int) + 32) as char
    } else {
        c
    }
}

/// `p` is `urn:uuid:`, letters in any case.
pub open spec fn is_urn_prefix(p: Seq<char>) -> bool {
    &&& p.len() == 9
    &&& ascii_lower(p[0]) == 'u'
    &&& ascii_lower(p[1]) == 'r'
    &&& ascii_lower(p[2]) == 'n'
    &&& p[3] == ':'
    &&& ascii_lower(p[4]) == 'u'
    &&& ascii_lower(p[5]) == 'u'
    &&& ascii_lower(p[6]) == 'i'
    &&& ascii_lower(p[7]) == 'd'
    &&& p[8] == ':'
}

/// The 32 hexadecimal digits of a UUID text in one of the forms that
/// `uuid::Uuid::parse_str` reads: simple (32 digits), hyphenated, braced
/// (`{` hyphenated `}`) or URN (`urn:uuid:` hyphenated); `None` otherwise.
pub open spec fn uuid_digits(s: Seq<char>) -> Option<Seq<char>> {
    if s.len() == 32 {
        if all_hex(s) {
            Some(s)
        } else {
            None
        }
    } else if s.len() == 36 {
        hyphenated_digits(s)
    } else if s.len() == 38 && s[0] == '{' && s[37] == '}' {
        hyphenated_digits(s.subrange(1, 37))
    } else if s.len() == 45 && is_urn_prefix(s.subrange(0, 9)) {
        hyphenated_digits(s.subrange(9, 45))
    } else {
        None
    }
}

/// The UUID that the text `s` denotes, as a 128-bit number whose most
/// significant digit comes first; `None` when `s` is not a UUID text.
pub open spec fn spec_parse_uuid(s: Seq<char>) -> Option<u128> {
    match uuid_digits(s) {
        Some(d) => Some(hex_value(d) as u128),
        None => None,
    }
}

/// Calls `uuid::Uuid::parse_str` and, on success, `Uuid::as_u128`. The
/// parser accepts the simple, hyphenated, braced and URN forms, with
/// hexadecimal digits in either case, and reads the digits big-endian, which
/// `as_u128` keeps.
#[verifier::external_body]
fn parse_uuid(s: &str) -> (res: Option<u128>)
    ensures
        res == spec_parse_uuid(s@),
{
    match uuid::Uuid::parse_str(s) {
        Ok(u) => Some(u.as_u128()),
        Err(_) => None,
    }
}

/// The key under which a user is looked up by the text `user_id`: the UUID
/// that it denotes, or `None` when it is no UUID, and then no user is found.
pub fn user_id_key(user_id: &str) -> (res: Option<u128>)
    ensures
        res == spec_parse_uuid(user_id@),
{
    parse_uuid(user_id)
}

/// The user that a lookup by identifier found: the first of the rows.
pub fn first_user(results: Vec<User>) -> (res: Option<User>)
    ensures
        results@.len() > 0 ==> res == Some(results@[0]),
        results@.len() == 0 ==> res is None,
{
    let mut results = results;
    if results.len() == 0 {
        None
    } else {
        Some(results.remove(0))
    }
}

/// Every UUID that the library generates for a new row can be looked up:
/// its text is accepted by the UUID parser.
pub proof fn lemma_generated_uuid_is_lookup_key(s: Seq<char>)
    requires
        is_v4_uuid_text(s),
    ensures
        spec_parse_uuid(s) is Some,
{
    assert forall|i: int|
        0 <= i < 36 implies if is_hyphen_position(i) {
        s[i] == '-'
    } else {
        is_hex(#[trigger] s[i])
    } by {
        if !is_hyphen_position(i) {
            assert(is_lower_hex(s[i]));
        }
    }
}

/// The lower-case hexadecimal digit for `d < 16`.
pub open spec fn lower_hex_char(d: nat) -> char {
    if d < 10 {
        (('0' as nat) + d) as char
    } else {
        (('a' as nat) + d - 10) as char
    }
}

/// The last `count` lower-case hexadecimal digits of `n`, most significant
/// first.
pub open spec fn hex_digits(n: nat, count: nat) -> Seq<char>
    decreases count,
{
    if count == 0 {
        Seq::empty()
    } else {
        hex_digits(n / 16, (count - 1) as nat).push(lower_hex_char(n % 16))
    }
}

/// The lower-case hyphenated text of the UUID whose 128-bit value is
/// `key`: its 32 hexadecimal digits in groups of 8, 4, 4, 4 and 12.
pub open spec fn uuid_text(key: u128) -> Seq<char> {
    let d = hex_digits(key as nat, 32);
    d.subrange(0, 8) + seq!['-'] + d.subrange(8, 12) + seq!['-'] + d.subrange(12, 16) + seq!['-']
        + d.subrange(16, 20) + seq!['-'] + d.subrange(20, 32)
}

/// Calls `uuid::Uuid::from_u128` and writes the UUID with `Display`, which
/// writes the lower-case hyphenated form of its big-endian bytes.
#[verifier::external_body]
fn format_uuid(key: u128) -> (res: String)
    ensures
        res@ == uuid_text(key),
{
    uuid::Uuid::from_u128(key).to_string()
}

/// The text under which the user with the UUID `key` is stored: the
/// lower-case hyphenated text of the UUID.
pub fn user_id_text(key: u128) -> (res: String)
    ensures
        res@ == uuid_text(key),
{
    format_uuid(key)
}

/// 16 to the power `c`.
pub open spec fn pow16(c: nat) -> nat
    decreases c,
{
    if c == 0 {
        1
    } else {
        16 * pow16((c - 1) as nat)
    }
}

proof fn lemma_hex_digits(n: nat, count: nat)
    requires
        n < pow16(count),
    ensures
        hex_digits(n, count).len() == count,
        forall|i: int| 0 <= i < count ==> is_hex(#[trigger] hex_digits(n, count)[i]),
        hex_value(hex_digits(n, count)) == n,
    decreases count,
{
    if count > 0 {
        let p = pow16((count - 1) as nat);
        assert(n / 16 < p) by (nonlinear_arith)
            requires
                n < 16 * p,
        ;
        lemma_hex_digits(n / 16, (count - 1) as nat);
        let s = hex_digits(n, count);
        let d = n % 16;
        assert(s.drop_last() =~= hex_digits(n / 16, (count - 1) as nat));
        assert(is_hex(lower_hex_char(d)) && hex_digit_value(lower_hex_char(d)) == d);
        assert((n / 16) * 16 + n % 16 == n);
        assert forall|i: int| 0 <= i < count implies is_hex(#[trigger] s[i]) by {
            if i < count - 1 {
                assert(s[i] == hex_digits(n / 16, (count - 1) as nat)[i]);
            }
        }
    } else {
        assert(n == 0);
    }
}

/// The text written for a UUID reads back as the same UUID: the lookup key
/// of `user_id_text(key)` is `key`.
pub proof fn lemma_user_id_text_round_trips(key: u128)
    ensures
        spec_parse_uuid(uuid_text(key)) == Some(key),
{
    reveal_with_fuel(pow16, 33);
    assert(pow16(32) == 0x1_0000_0000_0000_0000_0000_0000_0000_0000nat);
    lemma_hex_digits(key as nat, 32);
    let d = hex_digits(key as nat, 32);
    let t = uuid_text(key);
    assert(t.len() == 36);
    assert forall|i: int|
        0 <= i < 36 implies if is_hyphen_position(i) {
        t[i] == '-'
    } else {
        is_hex(#[trigger] t[i])
    } by {
        if i < 8 {
            assert(t[i] == d[i]);
        } else if i == 8 {
        } else if i < 13 {
            assert(t[i] == d[i - 1]);
        } else if i == 13 {
        } else if i < 18 {
            assert(t[i] == d[i - 2]);
        } else if i == 18 {
        } else if i < 23 {
            assert(t[i] == d[i - 3]);
        } else if i == 23 {
        } else {
            assert(t[i] == d[i - 4]);
        }
    }
    assert(t.subrange(0, 8) + t.subrange(9, 13) + t.subrange(14, 18) + t.subrange(19, 23)
        + t.subrange(24, 36) =~= d);
    assert(uuid_digits(t) == Some(d));
}

} // verus!
