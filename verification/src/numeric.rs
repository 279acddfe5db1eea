//! Numeric normalization: strips locale group separators and trailing
//! locale unit words from raw numeric tokens, and parses "A / B"
//! connection-count pairs.

use vstd::prelude::*;
use vstd::string::StrSliceExecFns;

use crate::error::NumericError;
use crate::strutil::{chars_of, ends_with, ends_with_chars, sub_chars};

verus! {

/// Whitespace as trimmed around the halves of a connection pair.
pub open spec fn is_ws_char(c: char) -> bool {
    c == ' ' || c == '\t' || c == '\r' || c == '\n'
}

/// A decimal digit.
pub open spec fn is_digit_char(c: char) -> bool {
    48 <= (c as u32) && (c as u32) <= 57
}

/// The value of one decimal digit.
pub open spec fn digit_val(c: char) -> int {
    (c as u32) - 48
}

/// Every character of `s` is a decimal digit.
pub open spec fn all_digits(s: Seq<char>) -> bool {
    forall|i: int| 0 <= i < s.len() ==> is_digit_char(#[trigger] s[i])
}

/// The base-10 value of a digit string.
pub open spec fn digits_value(s: Seq<char>) -> int
    decreases s.len(),
{
    if s.len() == 0 {
        0
    } else {
        digits_value(s.drop_last()) * 10 + digit_val(s.last())
    }
}

/// `s` with every group separator (",") removed.
pub open spec fn strip_separators(s: Seq<char>) -> Seq<char>
    decreases s.len(),
{
    if s.len() == 0 {
        Seq::empty()
    } else if s.last() == ',' {
        strip_separators(s.drop_last())
    } else {
        strip_separators(s.drop_last()).push(s.last())
    }
}

/// `s` with the first of `units` that ends it removed; `s` itself when none
/// does.
pub open spec fn strip_unit(s: Seq<char>, units: Seq<Seq<char>>) -> Seq<char>
    decreases units.len(),
{
    if units.len() == 0 {
        s
    } else if ends_with(s, units[0]) {
        s.take(s.len() - units[0].len())
    } else {
        strip_unit(s, units.drop_first())
    }
}

/// The unit words of packet counters, one per supported locale.
pub open spec fn packet_units() -> Seq<Seq<char>> {
    seq![" パケット"@, " packets"@, " 数据包"@]
}

/// The unit words of byte counters, one per supported locale.
pub open spec fn byte_units() -> Seq<Seq<char>> {
    seq![" バイト"@, " bytes"@, " 字节"@]
}

/// What normalizing a raw token against the given unit words yields:
/// the value of the digits left after stripping group separators and a
/// trailing unit word, or nothing when the residue is not a non-empty
/// digit string whose value fits in a 64-bit counter.
pub open spec fn spec_parse_with_units(s: Seq<char>, units: Seq<Seq<char>>) -> Option<u64> {
    let residue = strip_unit(strip_separators(s), units);
    if residue.len() > 0 && all_digits(residue) && digits_value(residue) <= u64::MAX {
        Some(digits_value(residue) as u64)
    } else {
        None
    }
}

/// Normalization of a packet counter.
pub open spec fn spec_parse_packet_count(s: Seq<char>) -> Option<u64> {
    spec_parse_with_units(s, packet_units())
}

/// Normalization of a byte counter.
pub open spec fn spec_parse_byte_count(s: Seq<char>) -> Option<u64> {
    spec_parse_with_units(s, byte_units())
}

/// Normalization of a bare count, which carries no unit word.
pub open spec fn spec_parse_count(s: Seq<char>) -> Option<u64> {
    spec_parse_with_units(s, Seq::empty())
}

/// `s` without leading whitespace.
pub open spec fn trim_front(s: Seq<char>) -> Seq<char>
    decreases s.len(),
{
    if s.len() > 0 && is_ws_char(s.first()) {
        trim_front(s.drop_first())
    } else {
        s
    }
}

/// `s` without trailing whitespace.
pub open spec fn trim_back(s: Seq<char>) -> Seq<char>
    decreases s.len(),
{
    if s.len() > 0 && is_ws_char(s.last()) {
        trim_back(s.drop_last())
    } else {
        s
    }
}

/// `s` without leading or trailing whitespace.
pub open spec fn trim(s: Seq<char>) -> Seq<char> {
    trim_back(trim_front(s))
}

/// The index of the first '/' in `s`; meaningful only when `s` contains one.
pub open spec fn first_slash(s: Seq<char>) -> int
    decreases s.len(),
{
    if s.len() == 0 {
        0
    } else if s.first() == '/' {
        0
    } else {
        1 + first_slash(s.drop_first())
    }
}

/// One trimmed half of a connection pair, parsed as a plain digit string.
pub open spec fn spec_parse_half(s: Seq<char>) -> Option<u64> {
    let h = trim(s);
    if h.len() > 0 && all_digits(h) && digits_value(h) <= u64::MAX {
        Some(digits_value(h) as u64)
    } else {
        None
    }
}

/// What parsing an "A / B" connection token yields: (0, 0) when no '/'
/// separator occurs, else the two halves around the first '/' (up to a
/// second '/', when one follows), trimmed and parsed independently.
pub open spec fn spec_parse_connection_pair(s: Seq<char>) -> Option<(u64, u64)> {
    if !s.contains('/') {
        Some((0u64, 0u64))
    } else {
        let i = first_slash(s);
        let rest = s.skip(i + 1);
        let j = if rest.contains('/') {
            first_slash(rest)
        } else {
            rest.len() as int
        };
        match (spec_parse_half(s.take(i)), spec_parse_half(rest.take(j))) {
            (Some(a), Some(b)) => Some((a, b)),
            _ => None,
        }
    }
}

/// A digit string has a non-negative value.
proof fn lemma_digits_nonneg(s: Seq<char>)
    requires
        all_digits(s),
    ensures
        digits_value(s) >= 0,
    decreases s.len(),
{
    if s.len() > 0 {
        assert(all_digits(s.drop_last()));
        lemma_digits_nonneg(s.drop_last());
    }
}

/// The value of a prefix of a digit string never exceeds the whole.
proof fn lemma_digits_prefix_le(s: Seq<char>, i: int)
    requires
        all_digits(s),
        0 <= i <= s.len(),
    ensures
        digits_value(s.take(i)) <= digits_value(s),
    decreases s.len(),
{
    if i < s.len() {
        assert(all_digits(s.drop_last()));
        assert(s.take(i) =~= s.drop_last().take(i));
        lemma_digits_prefix_le(s.drop_last(), i);
        lemma_digits_nonneg(s.drop_last());
        assert(digits_value(s) == digits_value(s.drop_last()) * 10 + digit_val(s.last()));
        assert(digits_value(s.drop_last()) * 10 >= digits_value(s.drop_last()));
    } else {
        assert(s.take(i) =~= s);
    }
}

/// Parse a vector of characters as a non-empty decimal digit string.
fn parse_digits(v: &Vec<char>) -> (r: Option<u64>)
    ensures
        match r {
            Some(n) => v@.len() > 0 && all_digits(v@) && digits_value(v@) == n,
            None => !(v@.len() > 0 && all_digits(v@) && digits_value(v@) <= u64::MAX),
        },
{
    if v.len() == 0 {
        return None;
    }
    let mut acc: u64 = 0;
    let mut i: usize = 0;
    while i < v.len()
        invariant
            i <= v@.len(),
            all_digits(v@.take(i as int)),
            acc == digits_value(v@.take(i as int)),
        decreases v@.len() - i,
    {
        let u = v[i] as u32;
        if u < 48 || u > 57 {
            assert(!is_digit_char(v@[i as int]));
            return None;
        }
        let d = (u - 48) as u64;
        if acc > (u64::MAX - d) / 10 {
            proof {
                assert(v@.take(i + 1).drop_last() =~= v@.take(i as int));
                assert(digits_value(v@.take(i + 1)) == acc * 10 + d);
                assert(acc * 10 + d > u64::MAX);
                if all_digits(v@) {
                    lemma_digits_prefix_le(v@, i + 1);
                }
            }
            return None;
        }
        let next = acc * 10 + d;
        proof {
            assert(v@.take(i + 1).drop_last() =~= v@.take(i as int));
            assert(all_digits(v@.take(i + 1)));
        }
        acc = next;
        i = i + 1;
    }
    proof {
        assert(v@.take(v@.len() as int) =~= v@);
    }
    Some(acc)
}

/// Remove every group separator from a vector of characters.
fn strip_separators_exec(v: &Vec<char>) -> (r: Vec<char>)
    ensures
        r@ == strip_separators(v@),
{
    let mut r: Vec<char> = Vec::new();
    let mut i: usize = 0;
    while i < v.len()
        invariant
            i <= v@.len(),
            r@ == strip_separators(v@.take(i as int)),
        decreases v@.len() - i,
    {
        proof {
            assert(v@.take(i + 1).drop_last() =~= v@.take(i as int));
        }
        if v[i] != ',' {
            r.push(v[i]);
        }
        i = i + 1;
    }
    proof {
        assert(v@.take(v@.len() as int) =~= v@);
    }
    r
}

/// Remove the first of the three unit words that ends `v`, if any does.
fn strip_unit_exec(v: Vec<char>, u1: &str, u2: &str, u3: &str) -> (r: Vec<char>)
    ensures
        r@ == strip_unit(v@, seq![u1@, u2@, u3@]),
{
    let ghost units: Seq<Seq<char>> = seq![u1@, u2@, u3@];
    proof {
        reveal_with_fuel(strip_unit, 4);
        assert(units.drop_first() =~= seq![u2@, u3@]);
        assert(units.drop_first().drop_first() =~= seq![u3@]);
        assert(units.drop_first().drop_first().drop_first() =~= Seq::<Seq<char>>::empty());
    }
    if ends_with_chars(&v, u1) {
        let hi = v.len() - u1.unicode_len();
        let r = sub_chars(&v, 0, hi);
        proof {
            assert(r@ =~= v@.take(v@.len() - u1@.len()));
        }
        r
    } else if ends_with_chars(&v, u2) {
        let hi = v.len() - u2.unicode_len();
        let r = sub_chars(&v, 0, hi);
        proof {
            assert(r@ =~= v@.take(v@.len() - u2@.len()));
        }
        r
    } else if ends_with_chars(&v, u3) {
        let hi = v.len() - u3.unicode_len();
        let r = sub_chars(&v, 0, hi);
        proof {
            assert(r@ =~= v@.take(v@.len() - u3@.len()));
        }
        r
    } else {
        v
    }
}

/// Normalize a raw token against three unit words and parse the residue.
fn parse_with_units_exec(s: &str, u1: &str, u2: &str, u3: &str) -> (r: Result<u64, NumericError>)
    ensures
        match spec_parse_with_units(s@, seq![u1@, u2@, u3@]) {
            Some(n) => r == Ok::<u64, NumericError>(n),
            None => r == Err::<u64, NumericError>(NumericError::MalformedNumber),
        },
{
    let v = chars_of(s);
    let stripped = strip_separators_exec(&v);
    let residue = strip_unit_exec(stripped, u1, u2, u3);
    match parse_digits(&residue) {
        Some(n) => Ok(n),
        None => Err(NumericError::MalformedNumber),
    }
}

/// Normalize a raw packet counter, e.g. `"7,262,679,895 packets"`.
///
/// Group separators are removed, then a trailing packet unit word of any
/// supported locale; the residue must be a non-empty decimal digit string.
pub fn parse_packet_count(s: &str) -> (r: Result<u64, NumericError>)
    ensures
        match spec_parse_packet_count(s@) {
            Some(n) => r == Ok::<u64, NumericError>(n),
            None => r == Err::<u64, NumericError>(NumericError::MalformedNumber),
        },
{
    parse_with_units_exec(s, " パケット", " packets", " 数据包")
}

/// Normalize a raw byte counter, e.g. `"4,153,388,417,848 bytes"`.
pub fn parse_byte_count(s: &str) -> (r: Result<u64, NumericError>)
    ensures
        match spec_parse_byte_count(s@) {
            Some(n) => r == Ok::<u64, NumericError>(n),
            None => r == Err::<u64, NumericError>(NumericError::MalformedNumber),
        },
{
    parse_with_units_exec(s, " バイト", " bytes", " 字节")
}

/// Normalize a bare count field, which carries no unit word.
pub fn parse_count(s: &str) -> (r: Result<u64, NumericError>)
    ensures
        match spec_parse_count(s@) {
            Some(n) => r == Ok::<u64, NumericError>(n),
            None => r == Err::<u64, NumericError>(NumericError::MalformedNumber),
        },
{
    let v = chars_of(s);
    let residue = strip_separators_exec(&v);
    proof {
        assert(strip_unit(strip_separators(s@), Seq::empty()) == strip_separators(s@));
    }
    match parse_digits(&residue) {
        Some(n) => Ok(n),
        None => Err(NumericError::MalformedNumber),
    }
}

/// Whitespace as trimmed around connection-pair halves.
fn is_ws(c: char) -> (r: bool)
    ensures
        r == is_ws_char(c),
{
    c == ' ' || c == '\t' || c == '\r' || c == '\n'
}

/// The first index of `s` that holds `'/'` is the one `first_slash` names.
proof fn lemma_first_slash(s: Seq<char>, i: int)
    requires
        0 <= i < s.len(),
        s[i] == '/',
        forall|k: int| 0 <= k < i ==> s[k] != '/',
    ensures
        s.contains('/'),
        first_slash(s) == i,
    decreases i,
{
    assert(s.contains('/'));
    if i == 0 {
    } else {
        assert(s.first() != '/');
        lemma_first_slash(s.drop_first(), i - 1);
    }
}

/// Find the first '/' in `v`.
fn find_slash_vec(v: &Vec<char>) -> (r: Option<usize>)
    ensures
        match r {
            Some(i) => v@.contains('/') && i < v@.len() && i == first_slash(v@),
            None => !v@.contains('/'),
        },
{
    let mut i: usize = 0;
    while i < v.len()
        invariant
            i <= v@.len(),
            forall|k: int| 0 <= k < i ==> v@[k] != '/',
        decreases v@.len() - i,
    {
        if v[i] == '/' {
            proof {
                lemma_first_slash(v@, i as int);
            }
            return Some(i);
        }
        i = i + 1;
    }
    None
}

/// The characters of `v` before `hi`, trimmed of surrounding whitespace.
fn trim_range(v: &Vec<char>, hi: usize) -> (r: Vec<char>)
    requires
        hi <= v@.len(),
    ensures
        r@ == trim(v@.take(hi as int)),
{
    let mut lo: usize = 0;
    let mut h = hi;
    proof {
        assert(v@.subrange(0, hi as int) =~= v@.take(hi as int));
    }
    while lo < h && is_ws(v[lo])
        invariant
            lo <= h <= v@.len(),
            h == hi,
            trim_front(v@.take(hi as int)) == trim_front(v@.subrange(lo as int, hi as int)),
        decreases h - lo,
    {
        proof {
            assert(v@.subrange(lo as int, hi as int).drop_first() =~= v@.subrange(
                lo + 1,
                hi as int,
            ));
        }
        lo = lo + 1;
    }
    proof {
        assert(trim_front(v@.take(hi as int)) == v@.subrange(lo as int, hi as int));
    }
    while h > lo && is_ws(v[h - 1])
        invariant
            lo <= h <= hi <= v@.len(),
            trim_front(v@.take(hi as int)) == v@.subrange(lo as int, hi as int),
            trim_back(v@.subrange(lo as int, hi as int)) == trim_back(
                v@.subrange(lo as int, h as int),
            ),
        decreases h,
    {
        proof {
            assert(v@.subrange(lo as int, h as int).drop_last() =~= v@.subrange(
                lo as int,
                h - 1,
            ));
        }
        h = h - 1;
    }
    proof {
        assert(trim_back(v@.subrange(lo as int, h as int)) == v@.subrange(lo as int, h as int));
    }
    sub_chars(v, lo, h)
}

/// Parse one trimmed half of a connection pair.
fn parse_half(v: &Vec<char>, hi: usize) -> (r: Option<u64>)
    requires
        hi <= v@.len(),
    ensures
        r == spec_parse_half(v@.take(hi as int)),
{
    let half = trim_range(v, hi);
    parse_digits(&half)
}

/// Parse an "A / B" connection-count token, e.g. `"2 / 2"`.
///
/// A token without a '/' separator reports no connection count and yields
/// `(0, 0)`; otherwise the halves around the separator are trimmed and each
/// must be a plain decimal number.
pub fn parse_connection_pair(s: &str) -> (r: Result<(u64, u64), NumericError>)
    ensures
        match spec_parse_connection_pair(s@) {
            Some(p) => r == Ok::<(u64, u64), NumericError>(p),
            None => r == Err::<(u64, u64), NumericError>(NumericError::MalformedConnectionPair),
        },
{
    let v = chars_of(s);
    match find_slash_vec(&v) {
        None => Ok((0, 0)),
        Some(i) => {
            let rest = sub_chars(&v, i + 1, v.len());
            proof {
                assert(rest@ =~= s@.skip(i + 1));
            }
            let j: usize = match find_slash_vec(&rest) {
                Some(j) => j,
                None => rest.len(),
            };
            let a = parse_half(&v, i);
            let b = parse_half(&rest, j);
            proof {
                assert(v@.take(i as int) =~= s@.take(i as int));
            }
            match (a, b) {
                (Some(a), Some(b)) => Ok((a, b)),
                _ => Err(NumericError::MalformedConnectionPair),
            }
        },
    }
}

/// A raw token made of digits and group separators only.
pub open spec fn is_grouped_digits(s: Seq<char>) -> bool {
    forall|i: int| 0 <= i < s.len() ==> is_digit_char(#[trigger] s[i]) || s[i] == ','
}

/// Stripping separators distributes over concatenation.
proof fn lemma_strip_separators_concat(a: Seq<char>, b: Seq<char>)
    ensures
        strip_separators(a + b) == strip_separators(a) + strip_separators(b),
    decreases b.len(),
{
    if b.len() == 0 {
        assert(a + b =~= a);
        assert(strip_separators(a) + strip_separators(b) =~= strip_separators(a));
    } else {
        assert((a + b).drop_last() =~= a + b.drop_last());
        lemma_strip_separators_concat(a, b.drop_last());
        if b.last() == ',' {
        } else {
            assert((strip_separators(a) + strip_separators(b.drop_last())).push(b.last()) =~= strip_separators(a)
                + strip_separators(b.drop_last()).push(b.last()));
        }
    }
}

/// A sequence without separators is untouched by stripping them.
proof fn lemma_strip_separators_id(s: Seq<char>)
    requires
        forall|i: int| 0 <= i < s.len() ==> #[trigger] s[i] != ',',
    ensures
        strip_separators(s) == s,
    decreases s.len(),
{
    if s.len() > 0 {
        lemma_strip_separators_id(s.drop_last());
        assert(strip_separators(s.drop_last()).push(s.last()) =~= s);
    }
}

/// Stripping separators from grouped digits leaves digits only.
proof fn lemma_strip_separators_digits(s: Seq<char>)
    requires
        is_grouped_digits(s),
    ensures
        all_digits(strip_separators(s)),
    decreases s.len(),
{
    if s.len() > 0 {
        assert(is_grouped_digits(s.drop_last()));
        lemma_strip_separators_digits(s.drop_last());
    }
}

/// Normalizing `<grouped-digits><unit>` against a unit set that holds
/// `unit` yields the digits' value, provided the three unit words are
/// non-empty, free of separators, and end in pairwise distinct characters.
proof fn lemma_round_trip_units(g: Seq<char>, unit: Seq<char>, units: Seq<Seq<char>>)
    requires
        units.len() == 3,
        units.contains(unit),
        forall|k: int| 0 <= k < 3 ==> (#[trigger] units[k]).len() > 0,
        forall|k: int, i: int|
            0 <= k < 3 && 0 <= i < units[k].len() ==> #[trigger] units[k][i] != ',',
        units[0].last() != units[1].last(),
        units[0].last() != units[2].last(),
        units[1].last() != units[2].last(),
        is_grouped_digits(g),
        strip_separators(g).len() > 0,
        digits_value(strip_separators(g)) <= u64::MAX,
    ensures
        spec_parse_with_units(g + unit, units) == Some(
            digits_value(strip_separators(g)) as u64,
        ),
{
    let core = strip_separators(g);
    lemma_strip_separators_concat(g, unit);
    let ghost k = choose|k: int| 0 <= k < 3 && units[k] == unit;
    assert(forall|i: int| 0 <= i < unit.len() ==> #[trigger] unit[i] != ',');
    lemma_strip_separators_id(unit);
    assert(strip_separators(g + unit) == core + unit);
    let x = core + unit;
    assert(x.last() == unit.last());
    // A unit word other than the token's own cannot end the stripped token.
    assert(forall|k2: int|
        0 <= k2 < 3 && units[k2].last() != unit.last() ==> !ends_with(x, #[trigger] units[k2]))
        by {
        assert forall|k2: int|
            0 <= k2 < 3 && units[k2].last() != unit.last() && ends_with(
                x,
                units[k2],
            ) implies false by {
            let u2 = units[k2];
            assert(x.subrange(x.len() - u2.len(), x.len() as int)[u2.len() - 1] == u2.last());
            assert(x.last() == u2.last());
        }
    }
    assert(ends_with(x, unit)) by {
        assert(x.subrange(x.len() - unit.len(), x.len() as int) =~= unit);
    }
    assert(x.take(x.len() - unit.len()) =~= core);
    reveal_with_fuel(strip_unit, 4);
    assert(units.drop_first() =~= seq![units[1], units[2]]);
    assert(units.drop_first().drop_first() =~= seq![units[2]]);
    assert(strip_unit(x, units) == core);
    lemma_strip_separators_digits(g);
}

/// Round-trip law of the numeric normalizer: a raw token built as
/// `<digits-with-group-separators><locale-packet-unit>` normalizes to the
/// integer the digits spell, for every supported locale's unit word.
pub proof fn lemma_packet_count_round_trip(g: Seq<char>, unit: Seq<char>)
    requires
        packet_units().contains(unit),
        is_grouped_digits(g),
        strip_separators(g).len() > 0,
        digits_value(strip_separators(g)) <= u64::MAX,
    ensures
        spec_parse_packet_count(g + unit) == Some(digits_value(strip_separators(g)) as u64),
{
    reveal_strlit(" パケット");
    reveal_strlit(" packets");
    reveal_strlit(" 数据包");
    lemma_round_trip_units(g, unit, packet_units());
}

/// Round-trip law of the numeric normalizer for byte counters: a raw token
/// built as `<digits-with-group-separators><locale-byte-unit>` normalizes
/// to the integer the digits spell.
pub proof fn lemma_byte_count_round_trip(g: Seq<char>, unit: Seq<char>)
    requires
        byte_units().contains(unit),
        is_grouped_digits(g),
        strip_separators(g).len() > 0,
        digits_value(strip_separators(g)) <= u64::MAX,
    ensures
        spec_parse_byte_count(g + unit) == Some(digits_value(strip_separators(g)) as u64),
{
    reveal_strlit(" バイト");
    reveal_strlit(" bytes");
    reveal_strlit(" 字节");
    lemma_round_trip_units(g, unit, byte_units());
}

/// A bare grouped-digits token normalizes to the digits' value as well.
pub proof fn lemma_count_round_trip(g: Seq<char>)
    requires
        is_grouped_digits(g),
        strip_separators(g).len() > 0,
        digits_value(strip_separators(g)) <= u64::MAX,
    ensures
        spec_parse_count(g) == Some(digits_value(strip_separators(g)) as u64),
{
    lemma_strip_separators_digits(g);
}

} // verus!
