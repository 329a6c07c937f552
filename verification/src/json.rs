use crate::entry::{EntryModel, LeaderboardEntry};
use crate::player::{Player, PlayerModel};
use vstd::prelude::*;
use vstd::string::*;

verus! {

// ---------------------------------------------------------------------------
// The response grammar, as spec functions over sequences of characters.
//
// Every spec parser takes a position and returns the parsed value together
// with the position just past it, or `None` where the text does not match.
// ---------------------------------------------------------------------------

/// JSON insignificant whitespace.
pub open spec fn is_json_ws(c: char) -> bool {
    c == ' ' || c == '\t' || c == '\n' || c == '\r'
}

/// The first position at or after `i` holding no whitespace.
pub open spec fn spec_skip_ws(s: Seq<char>, i: int) -> int
    decreases s.len() - i,
        when 0 <= i <= s.len()
{
    if i < s.len() && is_json_ws(s[i]) {
        spec_skip_ws(s, i + 1)
    } else {
        i
    }
}

pub proof fn lemma_skip_ws_bounds(s: Seq<char>, i: int)
    requires
        0 <= i <= s.len(),
    ensures
        i <= spec_skip_ws(s, i) <= s.len(),
    decreases s.len() - i,
{
    if i < s.len() && is_json_ws(s[i]) {
        lemma_skip_ws_bounds(s, i + 1);
    }
}

/// A decimal digit.
pub open spec fn is_digit(c: char) -> bool {
    48 <= c as int <= 57
}

/// The value of a single decimal digit character.
pub open spec fn digit_val(c: char) -> nat {
    (c as int - 48) as nat
}

/// The end of the run of digits that starts at `i`.
pub open spec fn spec_scan_digits(s: Seq<char>, i: int) -> int
    decreases s.len() - i,
        when 0 <= i <= s.len()
{
    if i < s.len() && is_digit(s[i]) {
        spec_scan_digits(s, i + 1)
    } else {
        i
    }
}

pub proof fn lemma_scan_digits_bounds(s: Seq<char>, i: int)
    requires
        0 <= i <= s.len(),
    ensures
        i <= spec_scan_digits(s, i) <= s.len(),
        forall|m: int| i <= m < spec_scan_digits(s, i) ==> is_digit(s[m]),
    decreases s.len() - i,
{
    if i < s.len() && is_digit(s[i]) {
        lemma_scan_digits_bounds(s, i + 1);
    }
}

/// The number the digit run `s[i..j]` denotes, most significant digit first.
pub open spec fn spec_digits_value(s: Seq<char>, i: int, j: int) -> nat
    decreases j - i,
{
    if i < j {
        spec_digits_value(s, i, j - 1) * 10 + digit_val(s[j - 1])
    } else {
        0
    }
}

pub proof fn lemma_digits_value_grows(s: Seq<char>, i: int, j: int, j2: int)
    requires
        i <= j <= j2,
    ensures
        spec_digits_value(s, i, j2) >= spec_digits_value(s, i, j),
    decreases j2 - j,
{
    if j < j2 {
        lemma_digits_value_grows(s, i, j, j2 - 1);
        assert(spec_digits_value(s, i, j2) == spec_digits_value(s, i, j2 - 1) * 10 + digit_val(
            s[j2 - 1],
        ));
    }
}

/// An unsigned decimal integer: at least one digit, value within `u64`.
pub open spec fn spec_parse_u64(s: Seq<char>, i: int) -> Option<(u64, int)> {
    let j = spec_scan_digits(s, i);
    if j == i {
        None
    } else if spec_digits_value(s, i, j) > u64::MAX {
        None
    } else {
        Some((spec_digits_value(s, i, j) as u64, j))
    }
}

pub proof fn lemma_parse_u64_bounds(s: Seq<char>, i: int)
    requires
        0 <= i <= s.len(),
    ensures
        spec_parse_u64(s, i) matches Some((v, j)) ==> i < j <= s.len(),
{
    lemma_scan_digits_bounds(s, i);
}

/// The characters a string literal may hold without escaping: everything but
/// the quote, the backslash, and the control characters. The grammar keeps to
/// these, so `spec_scan_str` finds the closing quote.
pub open spec fn spec_scan_str(s: Seq<char>, i: int) -> int
    decreases s.len() - i,
        when 0 <= i <= s.len()
{
    if i < s.len() && s[i] != '"' && s[i] != '\\' && s[i] as int >= 32 {
        spec_scan_str(s, i + 1)
    } else {
        i
    }
}

pub proof fn lemma_scan_str_bounds(s: Seq<char>, i: int)
    requires
        0 <= i <= s.len(),
    ensures
        i <= spec_scan_str(s, i) <= s.len(),
    decreases s.len() - i,
{
    if i < s.len() && s[i] != '"' && s[i] != '\\' && s[i] as int >= 32 {
        lemma_scan_str_bounds(s, i + 1);
    }
}

/// A quoted string without escape sequences; yields the characters between
/// the quotes.
pub open spec fn spec_parse_string(s: Seq<char>, i: int) -> Option<(Seq<char>, int)> {
    if 0 <= i < s.len() && s[i] == '"' {
        let j = spec_scan_str(s, i + 1);
        if j < s.len() && s[j] == '"' {
            Some((s.subrange(i + 1, j), j + 1))
        } else {
            None
        }
    } else {
        None
    }
}

pub proof fn lemma_parse_string_bounds(s: Seq<char>, i: int)
    requires
        0 <= i <= s.len(),
    ensures
        spec_parse_string(s, i) matches Some((t, j)) ==> i < j <= s.len(),
{
    if 0 <= i < s.len() && s[i] == '"' {
        lemma_scan_str_bounds(s, i + 1);
    }
}

/// The exact literal `lit` stands at position `i`.
pub open spec fn spec_match_lit(s: Seq<char>, i: int, lit: Seq<char>) -> bool {
    0 <= i && i + lit.len() <= s.len() && s.subrange(i, i + lit.len()) == lit
}

/// Consumes the literal `lit` at position `i`.
pub open spec fn spec_expect(s: Seq<char>, i: int, lit: Seq<char>) -> Option<int> {
    if spec_match_lit(s, i, lit) {
        Some(i + lit.len())
    } else {
        None
    }
}

/// The raw text of an unsigned decimal number with an optional fractional
/// part, kept as it stands in the body.
pub open spec fn spec_parse_number_text(s: Seq<char>, i: int) -> Option<(Seq<char>, int)> {
    let j = spec_scan_digits(s, i);
    if j == i {
        None
    } else if j < s.len() && s[j] == '.' {
        let j2 = spec_scan_digits(s, j + 1);
        if j2 == j + 1 {
            None
        } else {
            Some((s.subrange(i, j2), j2))
        }
    } else {
        Some((s.subrange(i, j), j))
    }
}

// ---------------------------------------------------------------------------
// Executable parsers, each proved to agree with its spec counterpart.
// ---------------------------------------------------------------------------

pub(crate) fn skip_ws_at(s: &str, i: usize) -> (r: usize)
    requires
        i <= s@.len(),
    ensures
        r as int == spec_skip_ws(s@, i as int),
        i <= r <= s@.len(),
    decreases s@.len() - i,
{
    let n = s.unicode_len();
    if i < n {
        let c = s.get_char(i);
        if c == ' ' || c == '\t' || c == '\n' || c == '\r' {
            skip_ws_at(s, i + 1)
        } else {
            i
        }
    } else {
        i
    }
}

pub(crate) fn scan_digits_at(s: &str, i: usize) -> (r: usize)
    requires
        i <= s@.len(),
    ensures
        r as int == spec_scan_digits(s@, i as int),
        i <= r <= s@.len(),
    decreases s@.len() - i,
{
    let n = s.unicode_len();
    if i < n {
        let c = s.get_char(i);
        let v = c as u32;
        if 48 <= v && v <= 57 {
            scan_digits_at(s, i + 1)
        } else {
            i
        }
    } else {
        i
    }
}

fn digits_acc(s: &str, i: usize, k: usize, j: usize, acc: u64) -> (r: Option<u64>)
    requires
        i <= k <= j <= s@.len(),
        forall|m: int| k <= m < j ==> is_digit(s@[m]),
        acc as nat == spec_digits_value(s@, i as int, k as int),
    ensures
        match r {
            Some(v) => v as nat == spec_digits_value(s@, i as int, j as int),
            None => spec_digits_value(s@, i as int, j as int) > u64::MAX,
        },
    decreases j - k,
{
    if k == j {
        Some(acc)
    } else {
        let c = s.get_char(k);
        let d = (c as u32) - 48;
        let d64 = d as u64;
        proof {
            assert(is_digit(s@[k as int]));
            assert(d64 as nat == digit_val(s@[k as int]));
            assert(d64 <= 9);
        }
        if acc <= (u64::MAX - d64) / 10 {
            proof {
                let y = (u64::MAX - d64) as int;
                assert(y == 10 * (y / 10) + y % 10);
                assert(acc * 10 <= 10 * (y / 10));
                assert(spec_digits_value(s@, i as int, k as int + 1) == acc as nat * 10
                    + digit_val(s@[k as int]));
            }
            let acc2 = acc * 10 + d64;
            digits_acc(s, i, k + 1, j, acc2)
        } else {
            proof {
                let y = (u64::MAX - d64) as int;
                assert(y == 10 * (y / 10) + y % 10);
                assert(acc * 10 + d64 > u64::MAX);
                assert(spec_digits_value(s@, i as int, k as int + 1) == acc as nat * 10
                    + digit_val(s@[k as int]));
                lemma_digits_value_grows(s@, i as int, k as int + 1, j as int);
            }
            None
        }
    }
}

pub(crate) fn parse_u64_at(s: &str, i: usize) -> (r: Option<(u64, usize)>)
    requires
        i <= s@.len(),
    ensures
        match r {
            Some((v, j)) => spec_parse_u64(s@, i as int) == Some((v, j as int)) && i < j
                <= s@.len(),
            None => spec_parse_u64(s@, i as int) is None,
        },
{
    let j = scan_digits_at(s, i);
    proof {
        lemma_scan_digits_bounds(s@, i as int);
    }
    if j == i {
        None
    } else {
        match digits_acc(s, i, i, j, 0) {
            Some(v) => Some((v, j)),
            None => None,
        }
    }
}

pub(crate) fn scan_str_at(s: &str, i: usize) -> (r: usize)
    requires
        i <= s@.len(),
    ensures
        r as int == spec_scan_str(s@, i as int),
        i <= r <= s@.len(),
    decreases s@.len() - i,
{
    let n = s.unicode_len();
    if i < n {
        let c = s.get_char(i);
        if c != '"' && c != '\\' && (c as u32) >= 32 {
            scan_str_at(s, i + 1)
        } else {
            i
        }
    } else {
        i
    }
}

pub(crate) fn parse_string_at(s: &str, i: usize) -> (r: Option<(String, usize)>)
    requires
        i <= s@.len(),
    ensures
        match r {
            Some((t, j)) => spec_parse_string(s@, i as int) matches Some(p) && p.0 == t@ && p.1
                == j as int && i < j <= s@.len(),
            None => spec_parse_string(s@, i as int) is None,
        },
{
    let n = s.unicode_len();
    if i < n && s.get_char(i) == '"' {
        let j = scan_str_at(s, i + 1);
        if j < n && s.get_char(j) == '"' {
            let t = s.substring_char(i + 1, j).to_owned();
            Some((t, j + 1))
        } else {
            None
        }
    } else {
        None
    }
}

pub(crate) fn expect_at(s: &str, i: usize, lit: &str) -> (r: Option<usize>)
    requires
        i <= s@.len(),
    ensures
        match r {
            Some(j) => spec_expect(s@, i as int, lit@) == Some(j as int) && i <= j <= s@.len(),
            None => spec_expect(s@, i as int, lit@) is None,
        },
{
    let n = s.unicode_len();
    let m = lit.unicode_len();
    if m <= n - i {
        let sub = s.substring_char(i, i + m);
        let a = sub.to_owned();
        let b = lit.to_owned();
        if a == b {
            Some(i + m)
        } else {
            None
        }
    } else {
        None
    }
}

pub(crate) fn parse_number_text_at(s: &str, i: usize) -> (r: Option<(String, usize)>)
    requires
        i <= s@.len(),
    ensures
        match r {
            Some((t, j)) => spec_parse_number_text(s@, i as int) matches Some(p) && p.0 == t@
                && p.1 == j as int && i < j <= s@.len(),
            None => spec_parse_number_text(s@, i as int) is None,
        },
{
    let n = s.unicode_len();
    let j = scan_digits_at(s, i);
    if j == i {
        None
    } else if j < n && s.get_char(j) == '.' {
        let j2 = scan_digits_at(s, j + 1);
        if j2 == j + 1 {
            None
        } else {
            let t = s.substring_char(i, j2).to_owned();
            Some((t, j2))
        }
    } else {
        let t = s.substring_char(i, j).to_owned();
        Some((t, j))
    }
}

// ---------------------------------------------------------------------------
// Object members: whitespace, the quoted key, a colon, then the value.
// ---------------------------------------------------------------------------

pub open spec fn spec_member_u64(s: Seq<char>, i: int, key: Seq<char>) -> Option<(u64, int)> {
    match spec_expect(s, spec_skip_ws(s, i), key) {
        None => None,
        Some(i1) => match spec_expect(s, spec_skip_ws(s, i1), ":"@) {
            None => None,
            Some(i2) => spec_parse_u64(s, spec_skip_ws(s, i2)),
        },
    }
}

pub open spec fn spec_member_string(s: Seq<char>, i: int, key: Seq<char>) -> Option<
    (Seq<char>, int),
> {
    match spec_expect(s, spec_skip_ws(s, i), key) {
        None => None,
        Some(i1) => match spec_expect(s, spec_skip_ws(s, i1), ":"@) {
            None => None,
            Some(i2) => spec_parse_string(s, spec_skip_ws(s, i2)),
        },
    }
}

pub open spec fn spec_member_number_text(s: Seq<char>, i: int, key: Seq<char>) -> Option<
    (Seq<char>, int),
> {
    match spec_expect(s, spec_skip_ws(s, i), key) {
        None => None,
        Some(i1) => match spec_expect(s, spec_skip_ws(s, i1), ":"@) {
            None => None,
            Some(i2) => spec_parse_number_text(s, spec_skip_ws(s, i2)),
        },
    }
}

pub proof fn lemma_member_u64_bounds(s: Seq<char>, i: int, key: Seq<char>)
    requires
        0 <= i <= s.len(),
    ensures
        spec_member_u64(s, i, key) matches Some((v, j)) ==> i < j <= s.len(),
{
    lemma_skip_ws_bounds(s, i);
    let p0 = spec_skip_ws(s, i);
    if spec_match_lit(s, p0, key) {
        let i1 = p0 + key.len() as int;
        lemma_skip_ws_bounds(s, i1);
        let p1 = spec_skip_ws(s, i1);
        if spec_match_lit(s, p1, ":"@) {
            let i2 = p1 + ":"@.len() as int;
            lemma_skip_ws_bounds(s, i2);
            lemma_parse_u64_bounds(s, spec_skip_ws(s, i2));
        }
    }
}

pub proof fn lemma_member_string_bounds(s: Seq<char>, i: int, key: Seq<char>)
    requires
        0 <= i <= s.len(),
    ensures
        spec_member_string(s, i, key) matches Some((t, j)) ==> i < j <= s.len(),
{
    lemma_skip_ws_bounds(s, i);
    let p0 = spec_skip_ws(s, i);
    if spec_match_lit(s, p0, key) {
        let i1 = p0 + key.len() as int;
        lemma_skip_ws_bounds(s, i1);
        let p1 = spec_skip_ws(s, i1);
        if spec_match_lit(s, p1, ":"@) {
            let i2 = p1 + ":"@.len() as int;
            lemma_skip_ws_bounds(s, i2);
            lemma_parse_string_bounds(s, spec_skip_ws(s, i2));
        }
    }
}

pub(crate) fn member_u64_at(s: &str, i: usize, key: &str) -> (r: Option<(u64, usize)>)
    requires
        i <= s@.len(),
    ensures
        match r {
            Some((v, j)) => spec_member_u64(s@, i as int, key@) == Some((v, j as int)) && i < j
                <= s@.len(),
            None => spec_member_u64(s@, i as int, key@) is None,
        },
{
    let i0 = skip_ws_at(s, i);
    match expect_at(s, i0, key) {
        None => None,
        Some(i1) => {
            let i1b = skip_ws_at(s, i1);
            match expect_at(s, i1b, ":") {
                None => None,
                Some(i2) => {
                    let i2b = skip_ws_at(s, i2);
                    parse_u64_at(s, i2b)
                },
            }
        },
    }
}

pub(crate) fn member_string_at(s: &str, i: usize, key: &str) -> (r: Option<(String, usize)>)
    requires
        i <= s@.len(),
    ensures
        match r {
            Some((t, j)) => spec_member_string(s@, i as int, key@) matches Some(p) && p.0 == t@
                && p.1 == j as int && i < j <= s@.len(),
            None => spec_member_string(s@, i as int, key@) is None,
        },
{
    let i0 = skip_ws_at(s, i);
    match expect_at(s, i0, key) {
        None => None,
        Some(i1) => {
            let i1b = skip_ws_at(s, i1);
            match expect_at(s, i1b, ":") {
                None => None,
                Some(i2) => {
                    let i2b = skip_ws_at(s, i2);
                    parse_string_at(s, i2b)
                },
            }
        },
    }
}

pub(crate) fn member_number_text_at(s: &str, i: usize, key: &str) -> (r: Option<(String, usize)>)
    requires
        i <= s@.len(),
    ensures
        match r {
            Some((t, j)) => spec_member_number_text(s@, i as int, key@) matches Some(p) && p.0
                == t@ && p.1 == j as int && i < j <= s@.len(),
            None => spec_member_number_text(s@, i as int, key@) is None,
        },
{
    let i0 = skip_ws_at(s, i);
    match expect_at(s, i0, key) {
        None => None,
        Some(i1) => {
            let i1b = skip_ws_at(s, i1);
            match expect_at(s, i1b, ":") {
                None => None,
                Some(i2) => {
                    let i2b = skip_ws_at(s, i2);
                    parse_number_text_at(s, i2b)
                },
            }
        },
    }
}

// ---------------------------------------------------------------------------
// A leaderboard entry object: the three members in their documented order.
// ---------------------------------------------------------------------------

pub open spec fn spec_parse_entry(s: Seq<char>, i: int) -> Option<(EntryModel, int)> {
    match spec_expect(s, spec_skip_ws(s, i), "{"@) {
        None => None,
        Some(i1) => match spec_member_u64(s, i1, "\"experience\""@) {
            None => None,
            Some((experience, i2)) => match spec_expect(s, spec_skip_ws(s, i2), ","@) {
                None => None,
                Some(i3) => match spec_member_u64(s, i3, "\"permissions\""@) {
                    None => None,
                    Some((permissions, i4)) => if permissions > 255 {
                        None
                    } else {
                        match spec_expect(s, spec_skip_ws(s, i4), ","@) {
                            None => None,
                            Some(i5) => match spec_member_string(s, i5, "\"username\""@) {
                                None => None,
                                Some((username, i6)) => match spec_expect(
                                    s,
                                    spec_skip_ws(s, i6),
                                    "}"@,
                                ) {
                                    None => None,
                                    Some(i7) => Some(
                                        (
                                            EntryModel {
                                                experience,
                                                permissions: permissions as u8,
                                                username,
                                            },
                                            i7,
                                        ),
                                    ),
                                },
                            },
                        }
                    },
                },
            },
        },
    }
}

pub proof fn lemma_parse_entry_bounds(s: Seq<char>, i: int)
    requires
        0 <= i <= s.len(),
    ensures
        spec_parse_entry(s, i) matches Some((m, j)) ==> i < j <= s.len(),
{
    lemma_skip_ws_bounds(s, i);
    let p0 = spec_skip_ws(s, i);
    if spec_match_lit(s, p0, "{"@) {
        let i1 = p0 + "{"@.len() as int;
        lemma_member_u64_bounds(s, i1, "\"experience\""@);
        match spec_member_u64(s, i1, "\"experience\""@) {
            None => {},
            Some((experience, i2)) => {
                lemma_skip_ws_bounds(s, i2);
                let p2 = spec_skip_ws(s, i2);
                if spec_match_lit(s, p2, ","@) {
                    let i3 = p2 + ","@.len() as int;
                    lemma_member_u64_bounds(s, i3, "\"permissions\""@);
                    match spec_member_u64(s, i3, "\"permissions\""@) {
                        None => {},
                        Some((permissions, i4)) => {
                            lemma_skip_ws_bounds(s, i4);
                            let p4 = spec_skip_ws(s, i4);
                            if spec_match_lit(s, p4, ","@) {
                                let i5 = p4 + ","@.len() as int;
                                lemma_member_string_bounds(s, i5, "\"username\""@);
                                match spec_member_string(s, i5, "\"username\""@) {
                                    None => {},
                                    Some((username, i6)) => {
                                        lemma_skip_ws_bounds(s, i6);
                                    },
                                }
                            }
                        },
                    }
                }
            },
        }
    }
}

pub(crate) fn parse_entry_at(s: &str, i: usize) -> (r: Option<(LeaderboardEntry, usize)>)
    requires
        i <= s@.len(),
    ensures
        match r {
            Some((e, j)) => spec_parse_entry(s@, i as int) matches Some(p) && p.0 == e@ && p.1
                == j as int && i < j <= s@.len(),
            None => spec_parse_entry(s@, i as int) is None,
        },
{
    let i0 = skip_ws_at(s, i);
    match expect_at(s, i0, "{") {
        None => None,
        Some(i1) => match member_u64_at(s, i1, "\"experience\"") {
            None => None,
            Some((experience, i2)) => {
                let i2b = skip_ws_at(s, i2);
                match expect_at(s, i2b, ",") {
                    None => None,
                    Some(i3) => match member_u64_at(s, i3, "\"permissions\"") {
                        None => None,
                        Some((permissions, i4)) => if permissions > 255 {
                            None
                        } else {
                            let i4b = skip_ws_at(s, i4);
                            match expect_at(s, i4b, ",") {
                                None => None,
                                Some(i5) => match member_string_at(s, i5, "\"username\"") {
                                    None => None,
                                    Some((username, i6)) => {
                                        let i6b = skip_ws_at(s, i6);
                                        match expect_at(s, i6b, "}") {
                                            None => None,
                                            Some(i7) => Some(
                                                (
                                                    LeaderboardEntry {
                                                        experience,
                                                        permissions: permissions as u8,
                                                        username,
                                                    },
                                                    i7,
                                                ),
                                            ),
                                        }
                                    },
                                },
                            }
                        },
                    },
                }
            },
        },
    }
}

// ---------------------------------------------------------------------------
// Arrays: a leaderboard page is an array of entry objects, the online list
// an array of strings. An empty array is a value of its own.
// ---------------------------------------------------------------------------

pub open spec fn spec_parse_entry_rest(s: Seq<char>, i: int, acc: Seq<EntryModel>) -> Option<
    (Seq<EntryModel>, int),
>
    decreases s.len() - i,
        when 0 <= i <= s.len()
{
    let k = spec_skip_ws(s, i);
    match spec_expect(s, k, "]"@) {
        Some(j) => Some((acc, j)),
        None => match spec_expect(s, k, ","@) {
            None => None,
            Some(k2) => match spec_parse_entry(s, k2) {
                None => None,
                Some((e, j)) => {
                    proof {
                        lemma_skip_ws_bounds(s, i);
                        lemma_parse_entry_bounds(s, k2);
                    }
                    spec_parse_entry_rest(s, j, acc.push(e))
                },
            },
        },
    }
}

pub open spec fn spec_parse_entry_list(s: Seq<char>, i: int) -> Option<(Seq<EntryModel>, int)> {
    match spec_expect(s, spec_skip_ws(s, i), "["@) {
        None => None,
        Some(i1) => {
            let k = spec_skip_ws(s, i1);
            match spec_expect(s, k, "]"@) {
                Some(i2) => Some((Seq::empty(), i2)),
                None => match spec_parse_entry(s, k) {
                    None => None,
                    Some((e, j)) => spec_parse_entry_rest(s, j, seq![e]),
                },
            }
        },
    }
}

/// The mathematical content of a decoded page.
pub open spec fn page_view(v: Seq<LeaderboardEntry>) -> Seq<EntryModel> {
    v.map_values(|e: LeaderboardEntry| e@)
}

pub(crate) fn parse_entry_rest_at(s: &str, i: usize, acc: Vec<LeaderboardEntry>) -> (r: Option<
    (Vec<LeaderboardEntry>, usize),
>)
    requires
        i <= s@.len(),
    ensures
        match r {
            Some((v, j)) => spec_parse_entry_rest(s@, i as int, page_view(acc@)) matches Some(p)
                && p.0 == page_view(v@) && p.1 == j as int && j <= s@.len(),
            None => spec_parse_entry_rest(s@, i as int, page_view(acc@)) is None,
        },
    decreases s@.len() - i,
{
    let k = skip_ws_at(s, i);
    match expect_at(s, k, "]") {
        Some(j) => Some((acc, j)),
        None => match expect_at(s, k, ",") {
            None => None,
            Some(k2) => match parse_entry_at(s, k2) {
                None => None,
                Some((e, j)) => {
                    let mut acc2 = acc;
                    acc2.push(e);
                    proof {
                        assert(page_view(acc2@) =~= page_view(acc@).push(e@));
                    }
                    parse_entry_rest_at(s, j, acc2)
                },
            },
        },
    }
}

pub(crate) fn parse_entry_list_at(s: &str, i: usize) -> (r: Option<(Vec<LeaderboardEntry>, usize)>)
    requires
        i <= s@.len(),
    ensures
        match r {
            Some((v, j)) => spec_parse_entry_list(s@, i as int) matches Some(p) && p.0
                == page_view(v@) && p.1 == j as int && j <= s@.len(),
            None => spec_parse_entry_list(s@, i as int) is None,
        },
{
    let i0 = skip_ws_at(s, i);
    match expect_at(s, i0, "[") {
        None => None,
        Some(i1) => {
            let k = skip_ws_at(s, i1);
            match expect_at(s, k, "]") {
                Some(i2) => {
                    let v: Vec<LeaderboardEntry> = Vec::new();
                    proof {
                        assert(page_view(v@) =~= Seq::<EntryModel>::empty());
                    }
                    Some((v, i2))
                },
                None => match parse_entry_at(s, k) {
                    None => None,
                    Some((e, j)) => {
                        let mut v: Vec<LeaderboardEntry> = Vec::new();
                        v.push(e);
                        proof {
                            assert(page_view(v@) =~= seq![e@]);
                        }
                        parse_entry_rest_at(s, j, v)
                    },
                },
            }
        },
    }
}

pub open spec fn spec_parse_string_rest(s: Seq<char>, i: int, acc: Seq<Seq<char>>) -> Option<
    (Seq<Seq<char>>, int),
>
    decreases s.len() - i,
        when 0 <= i <= s.len()
{
    let k = spec_skip_ws(s, i);
    match spec_expect(s, k, "]"@) {
        Some(j) => Some((acc, j)),
        None => match spec_expect(s, k, ","@) {
            None => None,
            Some(k2) => match spec_parse_string(s, spec_skip_ws(s, k2)) {
                None => None,
                Some((t, j)) => {
                    proof {
                        lemma_skip_ws_bounds(s, i);
                        lemma_skip_ws_bounds(s, k2);
                        lemma_parse_string_bounds(s, spec_skip_ws(s, k2));
                    }
                    spec_parse_string_rest(s, j, acc.push(t))
                },
            },
        },
    }
}

pub open spec fn spec_parse_string_list(s: Seq<char>, i: int) -> Option<(Seq<Seq<char>>, int)> {
    match spec_expect(s, spec_skip_ws(s, i), "["@) {
        None => None,
        Some(i1) => {
            let k = spec_skip_ws(s, i1);
            match spec_expect(s, k, "]"@) {
                Some(i2) => Some((Seq::empty(), i2)),
                None => match spec_parse_string(s, k) {
                    None => None,
                    Some((t, j)) => spec_parse_string_rest(s, j, seq![t]),
                },
            }
        },
    }
}

/// The mathematical content of a decoded list of usernames.
pub open spec fn strings_view(v: Seq<String>) -> Seq<Seq<char>> {
    v.map_values(|t: String| t@)
}

pub(crate) fn parse_string_rest_at(s: &str, i: usize, acc: Vec<String>) -> (r: Option<
    (Vec<String>, usize),
>)
    requires
        i <= s@.len(),
    ensures
        match r {
            Some((v, j)) => spec_parse_string_rest(s@, i as int, strings_view(acc@)) matches Some(
                p,
            ) && p.0 == strings_view(v@) && p.1 == j as int && j <= s@.len(),
            None => spec_parse_string_rest(s@, i as int, strings_view(acc@)) is None,
        },
    decreases s@.len() - i,
{
    let k = skip_ws_at(s, i);
    match expect_at(s, k, "]") {
        Some(j) => Some((acc, j)),
        None => match expect_at(s, k, ",") {
            None => None,
            Some(k2) => {
                let k3 = skip_ws_at(s, k2);
                match parse_string_at(s, k3) {
                    None => None,
                    Some((t, j)) => {
                        let mut acc2 = acc;
                        acc2.push(t);
                        proof {
                            assert(strings_view(acc2@) =~= strings_view(acc@).push(
                                acc2@[acc@.len() as int]@,
                            ));
                        }
                        parse_string_rest_at(s, j, acc2)
                    },
                }
            },
        },
    }
}

pub(crate) fn parse_string_list_at(s: &str, i: usize) -> (r: Option<(Vec<String>, usize)>)
    requires
        i <= s@.len(),
    ensures
        match r {
            Some((v, j)) => spec_parse_string_list(s@, i as int) matches Some(p) && p.0
                == strings_view(v@) && p.1 == j as int && j <= s@.len(),
            None => spec_parse_string_list(s@, i as int) is None,
        },
{
    let i0 = skip_ws_at(s, i);
    match expect_at(s, i0, "[") {
        None => None,
        Some(i1) => {
            let k = skip_ws_at(s, i1);
            match expect_at(s, k, "]") {
                Some(i2) => {
                    let v: Vec<String> = Vec::new();
                    proof {
                        assert(strings_view(v@) =~= Seq::<Seq<char>>::empty());
                    }
                    Some((v, i2))
                },
                None => match parse_string_at(s, k) {
                    None => None,
                    Some((t, j)) => {
                        let mut v: Vec<String> = Vec::new();
                        v.push(t);
                        proof {
                            assert(strings_view(v@) =~= seq![v@[0]@]);
                        }
                        parse_string_rest_at(s, j, v)
                    },
                },
            }
        },
    }
}

// ---------------------------------------------------------------------------
// A player object: the six members in their documented order.
// ---------------------------------------------------------------------------

pub open spec fn spec_parse_player(s: Seq<char>, i: int) -> Option<(PlayerModel, int)> {
    match spec_expect(s, spec_skip_ws(s, i), "{"@) {
        None => None,
        Some(i1) => match spec_member_u64(s, i1, "\"rank\""@) {
            None => None,
            Some((rank, i2)) => match spec_expect(s, spec_skip_ws(s, i2), ","@) {
                None => None,
                Some(i3) => match spec_member_string(s, i3, "\"registeredAt\""@) {
                    None => None,
                    Some((registered_at, i4)) => match spec_expect(s, spec_skip_ws(s, i4), ","@) {
                        None => None,
                        Some(i5) => match spec_member_string(s, i5, "\"username\""@) {
                            None => None,
                            Some((username, i6)) => match spec_expect(
                                s,
                                spec_skip_ws(s, i6),
                                ","@,
                            ) {
                                None => None,
                                Some(i7) => match spec_member_number_text(
                                    s,
                                    i7,
                                    "\"timePlayed\""@,
                                ) {
                                    None => None,
                                    Some((time_played, i8)) => match spec_expect(
                                        s,
                                        spec_skip_ws(s, i8),
                                        ","@,
                                    ) {
                                        None => None,
                                        Some(i9) => match spec_member_u64(
                                            s,
                                            i9,
                                            "\"permissions\""@,
                                        ) {
                                            None => None,
                                            Some((permissions, i10)) => if permissions > 255 {
                                                None
                                            } else {
                                                match spec_expect(s, spec_skip_ws(s, i10), ","@) {
                                                    None => None,
                                                    Some(i11) => match spec_member_u64(
                                                        s,
                                                        i11,
                                                        "\"lifetimeExperience\""@,
                                                    ) {
                                                        None => None,
                                                        Some((lifetime_experience, i12)) => match spec_expect(
                                                            s,
                                                            spec_skip_ws(s, i12),
                                                            "}"@,
                                                        ) {
                                                            None => None,
                                                            Some(i13) => Some(
                                                                (
                                                                    PlayerModel {
                                                                        rank,
                                                                        registered_at,
                                                                        username,
                                                                        time_played,
                                                                        permissions: permissions as u8,
                                                                        lifetime_experience,
                                                                    },
                                                                    i13,
                                                                ),
                                                            ),
                                                        },
                                                    },
                                                }
                                            },
                                        },
                                    },
                                },
                            },
                        },
                    },
                },
            },
        },
    }
}

#[verifier::rlimit(50)]
pub(crate) fn parse_player_at(s: &str, i: usize) -> (r: Option<(Player, usize)>)
    requires
        i <= s@.len(),
    ensures
        match r {
            Some((p, j)) => spec_parse_player(s@, i as int) matches Some(q) && q.0 == p@ && q.1
                == j as int && j <= s@.len(),
            None => spec_parse_player(s@, i as int) is None,
        },
{
    let i0 = skip_ws_at(s, i);
    match expect_at(s, i0, "{") {
        None => None,
        Some(i1) => match member_u64_at(s, i1, "\"rank\"") {
            None => None,
            Some((rank, i2)) => {
                let i2b = skip_ws_at(s, i2);
                match expect_at(s, i2b, ",") {
                    None => None,
                    Some(i3) => match member_string_at(s, i3, "\"registeredAt\"") {
                        None => None,
                        Some((registered_at, i4)) => {
                            let i4b = skip_ws_at(s, i4);
                            match expect_at(s, i4b, ",") {
                                None => None,
                                Some(i5) => match member_string_at(s, i5, "\"username\"") {
                                    None => None,
                                    Some((username, i6)) => {
                                        let i6b = skip_ws_at(s, i6);
                                        match expect_at(s, i6b, ",") {
                                            None => None,
                                            Some(i7) => match member_number_text_at(
                                                s,
                                                i7,
                                                "\"timePlayed\"",
                                            ) {
                                                None => None,
                                                Some((time_played, i8)) => {
                                                    let i8b = skip_ws_at(s, i8);
                                                    match expect_at(s, i8b, ",") {
                                                        None => None,
                                                        Some(i9) => match member_u64_at(
                                                            s,
                                                            i9,
                                                            "\"permissions\"",
                                                        ) {
                                                            None => None,
                                                            Some((permissions, i10)) => if permissions
                                                                > 255 {
                                                                None
                                                            } else {
                                                                let i10b = skip_ws_at(s, i10);
                                                                match expect_at(s, i10b, ",") {
                                                                    None => None,
                                                                    Some(i11) => match member_u64_at(
                                                                        s,
                                                                        i11,
                                                                        "\"lifetimeExperience\"",
                                                                    ) {
                                                                        None => None,
                                                                        Some(
                                                                            (lifetime_experience, i12),
                                                                        ) => {
                                                                            let i12b = skip_ws_at(
                                                                                s,
                                                                                i12,
                                                                            );
                                                                            match expect_at(
                                                                                s,
                                                                                i12b,
                                                                                "}",
                                                                            ) {
                                                                                None => None,
                                                                                Some(i13) => Some(
                                                                                    (
                                                                                        Player {
                                                                                            rank,
                                                                                            registered_at,
                                                                                            username,
                                                                                            time_played,
                                                                                            permissions: permissions as u8,
                                                                                            lifetime_experience,
                                                                                        },
                                                                                        i13,
                                                                                    ),
                                                                                ),
                                                                            }
                                                                        },
                                                                    },
                                                                }
                                                            },
                                                        },
                                                    }
                                                },
                                            },
                                        }
                                    },
                                },
                            }
                        },
                    },
                }
            },
        },
    }
}

// ---------------------------------------------------------------------------
// Whole response bodies: the value, then only whitespace to the end.
// ---------------------------------------------------------------------------

/// The registered-account count: a body holding a single integer.
pub open spec fn spec_decode_count(s: Seq<char>) -> Option<u64> {
    match spec_parse_u64(s, spec_skip_ws(s, 0)) {
        None => None,
        Some((v, j)) => if spec_skip_ws(s, j) == s.len() {
            Some(v)
        } else {
            None
        },
    }
}

/// A leaderboard page: a body holding an array of entry objects.
pub open spec fn spec_decode_page(s: Seq<char>) -> Option<Seq<EntryModel>> {
    match spec_parse_entry_list(s, 0) {
        None => None,
        Some((es, j)) => if spec_skip_ws(s, j) == s.len() {
            Some(es)
        } else {
            None
        },
    }
}

/// The online list: a body holding an array of usernames.
pub open spec fn spec_decode_online(s: Seq<char>) -> Option<Seq<Seq<char>>> {
    match spec_parse_string_list(s, 0) {
        None => None,
        Some((us, j)) => if spec_skip_ws(s, j) == s.len() {
            Some(us)
        } else {
            None
        },
    }
}

/// A player record: a body holding a single player object.
pub open spec fn spec_decode_player(s: Seq<char>) -> Option<PlayerModel> {
    match spec_parse_player(s, 0) {
        None => None,
        Some((p, j)) => if spec_skip_ws(s, j) == s.len() {
            Some(p)
        } else {
            None
        },
    }
}

/// Decodes a registered-count body; yields the integer the body holds, and
/// nothing on any body outside the grammar.
pub fn decode_registered_count(s: &str) -> (r: Option<u64>)
    ensures
        r == spec_decode_count(s@),
{
    let i = skip_ws_at(s, 0);
    match parse_u64_at(s, i) {
        None => None,
        Some((v, j)) => {
            let j2 = skip_ws_at(s, j);
            if j2 == s.unicode_len() {
                Some(v)
            } else {
                None
            }
        },
    }
}

/// Decodes a leaderboard page body into its entries, in server order.
pub fn decode_leaderboard_page(s: &str) -> (r: Option<Vec<LeaderboardEntry>>)
    ensures
        match r {
            Some(v) => spec_decode_page(s@) matches Some(es) && page_view(v@) == es,
            None => spec_decode_page(s@) is None,
        },
{
    match parse_entry_list_at(s, 0) {
        None => None,
        Some((v, j)) => {
            let j2 = skip_ws_at(s, j);
            if j2 == s.unicode_len() {
                Some(v)
            } else {
                None
            }
        },
    }
}

/// Decodes an online-players body into the usernames, in server order.
pub fn decode_online_players(s: &str) -> (r: Option<Vec<String>>)
    ensures
        match r {
            Some(v) => spec_decode_online(s@) matches Some(us) && strings_view(v@) == us,
            None => spec_decode_online(s@) is None,
        },
{
    match parse_string_list_at(s, 0) {
        None => None,
        Some((v, j)) => {
            let j2 = skip_ws_at(s, j);
            if j2 == s.unicode_len() {
                Some(v)
            } else {
                None
            }
        },
    }
}

/// Decodes a player body into the player record.
pub fn decode_player(s: &str) -> (r: Option<Player>)
    ensures
        match r {
            Some(p) => spec_decode_player(s@) matches Some(m) && p@ == m,
            None => spec_decode_player(s@) is None,
        },
{
    match parse_player_at(s, 0) {
        None => None,
        Some((p, j)) => {
            let j2 = skip_ws_at(s, j);
            if j2 == s.unicode_len() {
                Some(p)
            } else {
                None
            }
        },
    }
}

} // verus!
