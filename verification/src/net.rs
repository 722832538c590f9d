//! Textual IP address literals: the accepted grammars, the parsed forms
//! and the parsers that validate address-typed DNS record content.
//!
//! An IPv4 literal is four decimal octets separated by dots, each at most
//! 255 and without leading zeros. An IPv6 literal is up to eight
//! hexadecimal segments of at most four digits separated by colons, with
//! one optional `::` standing for the missing zero segments and an
//! optional trailing dotted quad standing for the last two.

use vstd::prelude::*;

verus! {

/// A parsed IPv4 address literal: four octets.
#[derive(Clone, Copy, Debug, PartialEq, Eq)]
pub struct Ipv4Address {
    pub octets: [u8; 4],
}

/// A parsed IPv6 address literal: eight 16-bit segments.
#[derive(Clone, Copy, Debug, PartialEq, Eq)]
pub struct Ipv6Address {
    pub segments: [u16; 8],
}

pub open spec fn is_dec_digit(c: char) -> bool {
    48 <= c as u32 && c as u32 <= 57
}

pub open spec fn dec_digit_val(c: char) -> int {
    c as u32 - 48
}

pub open spec fn all_dec_digits(s: Seq<char>) -> bool {
    forall|i: int| 0 <= i < s.len() ==> is_dec_digit(#[trigger] s[i])
}

/// The value of a string of decimal digits.
pub open spec fn dec_value(s: Seq<char>) -> int
    decreases s.len(),
{
    if s.len() == 0 {
        0
    } else {
        dec_value(s.drop_last()) * 10 + dec_digit_val(s.last())
    }
}

/// One octet of a dotted-quad literal: one to three decimal digits, at
/// most 255, with no leading zero.
pub open spec fn is_valid_octet(s: Seq<char>) -> bool {
    &&& 1 <= s.len() <= 3
    &&& all_dec_digits(s)
    &&& dec_value(s) <= 255
    &&& s.len() > 1 ==> s[0] != '0'
}

/// The position of the first occurrence of a character, if any.
pub open spec fn find_char(s: Seq<char>, c: char) -> Option<int>
    decreases s.len(),
{
    if s.len() == 0 {
        None
    } else if s[0] == c {
        Some(0)
    } else {
        match find_char(s.drop_first(), c) {
            Some(i) => Some(i + 1),
            None => None,
        }
    }
}

pub proof fn lemma_find_char_bounds(s: Seq<char>, c: char)
    ensures
        match find_char(s, c) {
            Some(i) => 0 <= i < s.len() && s[i] == c,
            None => true,
        },
    decreases s.len(),
{
    if s.len() > 0 && s[0] != c {
        lemma_find_char_bounds(s.drop_first(), c);
    }
}

/// A character found after a run without it is the first occurrence.
pub proof fn lemma_find_char_at(s: Seq<char>, c: char, i: int)
    requires
        0 <= i < s.len(),
        s[i] == c,
        forall|j: int| 0 <= j < i ==> s[j] != c,
    ensures
        find_char(s, c) == Some(i),
    decreases s.len(),
{
    if i > 0 {
        assert(s[0] != c);
        lemma_find_char_at(s.drop_first(), c, i - 1);
    }
}

/// A contained character makes the search succeed.
pub proof fn lemma_find_char_some(s: Seq<char>, c: char, i: int)
    requires
        0 <= i < s.len(),
        s[i] == c,
    ensures
        find_char(s, c) is Some,
    decreases s.len(),
{
    if s[0] != c {
        lemma_find_char_some(s.drop_first(), c, i - 1);
    }
}

pub proof fn lemma_find_char_none(s: Seq<char>, c: char)
    requires
        forall|j: int| 0 <= j < s.len() ==> s[j] != c,
    ensures
        find_char(s, c) is None,
    decreases s.len(),
{
    if s.len() > 0 {
        lemma_find_char_none(s.drop_first(), c);
    }
}

/// The octet values of a dot-separated run of octets, or nothing where a
/// part between dots is not a valid octet.
pub open spec fn octets_model(s: Seq<char>) -> Option<Seq<u8>>
    decreases s.len(),
{
    match find_char(s, '.') {
        None => if is_valid_octet(s) {
            Some(seq![dec_value(s) as u8])
        } else {
            None
        },
        Some(i) => {
            proof {
                lemma_find_char_bounds(s, '.');
            }
            if is_valid_octet(s.subrange(0, i)) {
                match octets_model(s.subrange(i + 1, s.len() as int)) {
                    Some(rest) => Some(seq![dec_value(s.subrange(0, i)) as u8] + rest),
                    None => None,
                }
            } else {
                None
            }
        },
    }
}

/// A valid IPv4 literal is exactly four valid octets separated by dots;
/// its value is their sequence.
pub open spec fn ipv4_model(s: Seq<char>) -> Option<Seq<u8>> {
    match octets_model(s) {
        Some(o) => if o.len() == 4 {
            Some(o)
        } else {
            None
        },
        None => None,
    }
}

pub open spec fn pow10(n: nat) -> int
    decreases n,
{
    if n == 0 {
        1
    } else {
        10 * pow10((n - 1) as nat)
    }
}

/// The value of a digit string is bounded by its width.
proof fn lemma_dec_value_bound(s: Seq<char>)
    requires
        all_dec_digits(s),
    ensures
        0 <= dec_value(s) < pow10(s.len()),
    decreases s.len(),
{
    if s.len() > 0 {
        assert(all_dec_digits(s.drop_last())) by {
            assert(forall|i: int|
                0 <= i < s.len() - 1 ==> s.drop_last()[i] == #[trigger] s[i]);
        }
        lemma_dec_value_bound(s.drop_last());
        assert(is_dec_digit(s.last()));
        assert(dec_value(s.drop_last()) <= pow10((s.len() - 1) as nat) - 1);
    }
}

/// One octet out of the characters between `from` and `to`.
fn parse_octet(chars: &Vec<char>, from: usize, to: usize) -> (r: Option<u8>)
    requires
        from <= to <= chars@.len(),
    ensures
        match r {
            Some(v) => is_valid_octet(chars@.subrange(from as int, to as int)) && dec_value(
                chars@.subrange(from as int, to as int),
            ) == v as int,
            None => !is_valid_octet(chars@.subrange(from as int, to as int)),
        },
{
    let ghost sub = chars@.subrange(from as int, to as int);
    let len = to - from;
    if len == 0 || len > 3 {
        return None;
    }
    if len > 1 && chars[from] == '0' {
        return None;
    }
    let mut val: u32 = 0;
    let mut i = from;
    while i < to
        invariant
            from <= i <= to <= chars@.len(),
            to - from <= 3,
            sub == chars@.subrange(from as int, to as int),
            all_dec_digits(sub.subrange(0, i - from)),
            val == dec_value(sub.subrange(0, i - from)),
            val <= 999,
        decreases to - i,
    {
        let c = chars[i];
        let d = c as u32;
        if d < 48 || d > 57 {
            proof {
                assert(sub[i - from] == chars@[i as int]);
                assert(!is_dec_digit(sub[i - from]));
            }
            return None;
        }
        proof {
            assert(sub[i - from] == chars@[i as int]);
            assert(is_dec_digit(sub[i - from]));
            let prefix = sub.subrange(0, i - from);
            let extended = sub.subrange(0, i - from + 1);
            lemma_dec_value_bound(prefix);
            assert(pow10(prefix.len()) <= 100) by {
                reveal_with_fuel(pow10, 4);
            }
            assert(extended.drop_last() =~= prefix);
            assert(extended.last() == sub[i - from]);
            assert forall|j: int| 0 <= j < extended.len() implies is_dec_digit(
                #[trigger] extended[j],
            ) by {
                if j < i - from {
                    assert(extended[j] == prefix[j]);
                    assert(is_dec_digit(prefix[j]));
                } else {
                    assert(extended[j] == sub[i - from]);
                }
            }
        }
        val = val * 10 + (d - 48);
        i += 1;
    }
    proof {
        assert(sub.subrange(0, to - from) =~= sub);
    }
    if val > 255 {
        return None;
    }
    Some(val as u8)
}

/// One dotted-quad IPv4 literal out of the characters between `from` and
/// `to`.
fn parse_ipv4_range(chars: &Vec<char>, from: usize, to: usize) -> (r: Option<Ipv4Address>)
    requires
        from <= to <= chars@.len(),
    ensures
        match r {
            Some(a) => ipv4_model(chars@.subrange(from as int, to as int)) == Some(a.octets@),
            None => ipv4_model(chars@.subrange(from as int, to as int)) is None,
        },
{
    let ghost whole = chars@.subrange(from as int, to as int);
    let mut pos: usize = from;
    let mut acc: Vec<u8> = Vec::new();
    proof {
        assert(chars@.subrange(pos as int, to as int) =~= whole);
    }
    loop
        invariant
            from <= pos <= to <= chars@.len(),
            whole == chars@.subrange(from as int, to as int),
            match octets_model(chars@.subrange(pos as int, to as int)) {
                Some(rest) => octets_model(whole) == Some(acc@ + rest),
                None => octets_model(whole) is None,
            },
        decreases to - pos,
    {
        let ghost suffix = chars@.subrange(pos as int, to as int);
        // scan for the next dot
        let mut q = pos;
        while q < to && chars[q] != '.'
            invariant
                pos <= q <= to <= chars@.len(),
                forall|j: int| pos <= j < q ==> chars@[j] != '.',
            decreases to - q,
        {
            q += 1;
        }
        proof {
            assert(forall|j: int|
                0 <= j < q - pos ==> suffix[j] == chars@[pos + j] && #[trigger] suffix[j] != '.');
            if q < to {
                assert(suffix[q - pos] == chars@[q as int]);
                lemma_find_char_at(suffix, '.', q - pos);
            } else {
                lemma_find_char_none(suffix, '.');
            }
            assert(suffix.subrange(0, q - pos) =~= chars@.subrange(pos as int, q as int));
        }
        match parse_octet(chars, pos, q) {
            None => {
                return None;
            },
            Some(v) => {
                acc.push(v);
                if q == to {
                    proof {
                        assert(octets_model(suffix) == Some(seq![v]));
                        assert(acc@ =~= acc@.subrange(0, acc@.len() - 1) + seq![v]);
                    }
                    if acc.len() == 4 {
                        let octets: [u8; 4] = [acc[0], acc[1], acc[2], acc[3]];
                        proof {
                            assert(octets@ =~= acc@);
                        }
                        return Some(Ipv4Address { octets });
                    }
                    return None;
                }
                proof {
                    assert(suffix.subrange(q - pos + 1, suffix.len() as int) =~= chars@.subrange(
                        q as int + 1,
                        to as int,
                    ));
                    assert(acc@.subrange(0, acc@.len() - 1).push(v) =~= acc@);
                    assert forall|rest: Seq<u8>|
                        true implies (acc@.subrange(0, acc@.len() - 1) + (seq![v] + rest)) =~= (acc@
                        + rest) by {}
                }
                pos = q + 1;
            },
        }
    }
}

/// Parses a dotted-quad IPv4 literal; accepts exactly the valid literals
/// and returns the four octet values.
pub fn parse_ipv4(s: &str) -> (r: Option<Ipv4Address>)
    ensures
        match r {
            Some(a) => ipv4_model(s@) == Some(a.octets@),
            None => ipv4_model(s@) is None,
        },
{
    let chars = crate::text::str_to_chars(s);
    let n = chars.len();
    proof {
        assert(chars@.subrange(0, n as int) =~= s@);
    }
    parse_ipv4_range(&chars, 0, n)
}

pub open spec fn is_hex_digit(c: char) -> bool {
    ||| 48 <= c as u32 && c as u32 <= 57
    ||| 97 <= c as u32 && c as u32 <= 102
    ||| 65 <= c as u32 && c as u32 <= 70
}

pub open spec fn hex_digit_val(c: char) -> int {
    if 48 <= c as u32 && c as u32 <= 57 {
        c as u32 - 48
    } else if 97 <= c as u32 && c as u32 <= 102 {
        c as u32 - 87
    } else {
        c as u32 - 55
    }
}

pub open spec fn all_hex_digits(s: Seq<char>) -> bool {
    forall|i: int| 0 <= i < s.len() ==> is_hex_digit(#[trigger] s[i])
}

/// The value of a string of hexadecimal digits.
pub open spec fn hex_value(s: Seq<char>) -> int
    decreases s.len(),
{
    if s.len() == 0 {
        0
    } else {
        hex_value(s.drop_last()) * 16 + hex_digit_val(s.last())
    }
}

/// One segment of an IPv6 literal: one to four hexadecimal digits.
pub open spec fn is_valid_segment(s: Seq<char>) -> bool {
    1 <= s.len() <= 4 && all_hex_digits(s)
}

pub open spec fn pow16(n: nat) -> int
    decreases n,
{
    if n == 0 {
        1
    } else {
        16 * pow16((n - 1) as nat)
    }
}

/// The value of a hexadecimal digit string is bounded by its width.
proof fn lemma_hex_value_bound(s: Seq<char>)
    requires
        all_hex_digits(s),
    ensures
        0 <= hex_value(s) < pow16(s.len()),
    decreases s.len(),
{
    if s.len() > 0 {
        assert(all_hex_digits(s.drop_last())) by {
            assert(forall|i: int|
                0 <= i < s.len() - 1 ==> s.drop_last()[i] == #[trigger] s[i]);
        }
        lemma_hex_value_bound(s.drop_last());
        assert(is_hex_digit(s.last()));
        assert(hex_value(s.drop_last()) <= pow16((s.len() - 1) as nat) - 1);
    }
}

/// The upper sixteen bits of an embedded dotted quad.
pub open spec fn quad_high(o: Seq<u8>) -> u16 {
    (o[0] * 256 + o[1]) as u16
}

/// The lower sixteen bits of an embedded dotted quad.
pub open spec fn quad_low(o: Seq<u8>) -> u16 {
    (o[2] * 256 + o[3]) as u16
}

/// The segment values of a colon-separated run of segments; an empty text
/// is zero segments, a trailing or doubled separator or an invalid
/// segment is nothing. With `quad_end`, the last segment may instead be
/// an embedded dotted-quad IPv4 literal standing for two segments.
pub open spec fn segments_model(s: Seq<char>, quad_end: bool) -> Option<Seq<u16>>
    decreases s.len(),
{
    if s.len() == 0 {
        Some(seq![])
    } else {
        match find_char(s, ':') {
            None => if quad_end && find_char(s, '.') is Some {
                match ipv4_model(s) {
                    Some(o) => Some(seq![quad_high(o), quad_low(o)]),
                    None => None,
                }
            } else if is_valid_segment(s) {
                Some(seq![hex_value(s) as u16])
            } else {
                None
            },
            Some(i) => {
                proof {
                    lemma_find_char_bounds(s, ':');
                }
                if i + 1 == s.len() {
                    None
                } else if is_valid_segment(s.subrange(0, i)) {
                    match segments_model(s.subrange(i + 1, s.len() as int), quad_end) {
                        Some(rest) => Some(seq![hex_value(s.subrange(0, i)) as u16] + rest),
                        None => None,
                    }
                } else {
                    None
                }
            },
        }
    }
}

/// The position of the first `::`, if any.
pub open spec fn find_double_colon(s: Seq<char>) -> Option<int>
    decreases s.len(),
{
    if s.len() < 2 {
        None
    } else if s[0] == ':' && s[1] == ':' {
        Some(0)
    } else {
        match find_double_colon(s.drop_first()) {
            Some(i) => Some(i + 1),
            None => None,
        }
    }
}

pub proof fn lemma_find_double_colon_bounds(s: Seq<char>)
    ensures
        match find_double_colon(s) {
            Some(i) => 0 <= i < s.len() - 1 && s[i] == ':' && s[i + 1] == ':',
            None => true,
        },
    decreases s.len(),
{
    if s.len() >= 2 && !(s[0] == ':' && s[1] == ':') {
        lemma_find_double_colon_bounds(s.drop_first());
    }
}

pub proof fn lemma_find_double_colon_at(s: Seq<char>, i: int)
    requires
        0 <= i < s.len() - 1,
        s[i] == ':',
        s[i + 1] == ':',
        forall|j: int| #![trigger s[j]] 0 <= j < i ==> !(s[j] == ':' && s[j + 1] == ':'),
    ensures
        find_double_colon(s) == Some(i),
    decreases s.len(),
{
    if i > 0 {
        assert(!(s[0] == ':' && s[1] == ':'));
        lemma_find_double_colon_at(s.drop_first(), i - 1);
    }
}

pub proof fn lemma_find_double_colon_none(s: Seq<char>)
    requires
        forall|j: int| #![trigger s[j]] 0 <= j < s.len() - 1 ==> !(s[j] == ':' && s[j + 1] == ':'),
    ensures
        find_double_colon(s) is None,
    decreases s.len(),
{
    if s.len() >= 2 {
        lemma_find_double_colon_none(s.drop_first());
    }
}

/// The given number of zero segments.
pub open spec fn zero_segments(n: nat) -> Seq<u16> {
    Seq::new(n, |i: int| 0u16)
}

/// A valid IPv6 literal is eight segments, or fewer with one `::`
/// standing for the missing zero segments, where the trailing segments
/// may be written as an embedded dotted-quad IPv4 literal; its value is
/// the eight segment values.
pub open spec fn ipv6_model(s: Seq<char>) -> Option<Seq<u16>> {
    match find_double_colon(s) {
        None => match segments_model(s, true) {
            Some(g) => if g.len() == 8 {
                Some(g)
            } else {
                None
            },
            None => None,
        },
        Some(i) => {
            let left = s.subrange(0, i);
            let right = s.subrange(i + 2, s.len() as int);
            match (segments_model(left, false), segments_model(right, true)) {
                (Some(l), Some(r)) => if l.len() + r.len() <= 7 {
                    Some(l + zero_segments((8 - l.len() - r.len()) as nat) + r)
                } else {
                    None
                },
                _ => None,
            }
        },
    }
}

/// One hexadecimal segment out of the characters between `from` and `to`.
fn parse_hex_segment(chars: &Vec<char>, from: usize, to: usize) -> (r: Option<u16>)
    requires
        from <= to <= chars@.len(),
    ensures
        match r {
            Some(v) => is_valid_segment(chars@.subrange(from as int, to as int)) && hex_value(
                chars@.subrange(from as int, to as int),
            ) == v as int,
            None => !is_valid_segment(chars@.subrange(from as int, to as int)),
        },
{
    let ghost sub = chars@.subrange(from as int, to as int);
    let len = to - from;
    if len == 0 || len > 4 {
        return None;
    }
    let mut val: u32 = 0;
    let mut i = from;
    while i < to
        invariant
            from <= i <= to <= chars@.len(),
            to - from <= 4,
            sub == chars@.subrange(from as int, to as int),
            all_hex_digits(sub.subrange(0, i - from)),
            val == hex_value(sub.subrange(0, i - from)),
            val <= 0xffff,
        decreases to - i,
    {
        let c = chars[i];
        let d = c as u32;
        let digit: u32 = if 48 <= d && d <= 57 {
            d - 48
        } else if 97 <= d && d <= 102 {
            d - 87
        } else if 65 <= d && d <= 70 {
            d - 55
        } else {
            proof {
                assert(sub[i - from] == chars@[i as int]);
                assert(!is_hex_digit(sub[i - from]));
            }
            return None;
        };
        proof {
            assert(sub[i - from] == chars@[i as int]);
            assert(is_hex_digit(sub[i - from]));
            let prefix = sub.subrange(0, i - from);
            let extended = sub.subrange(0, i - from + 1);
            lemma_hex_value_bound(prefix);
            assert(pow16(prefix.len()) <= 0x1000) by {
                reveal_with_fuel(pow16, 5);
            }
            assert(extended.drop_last() =~= prefix);
            assert(extended.last() == sub[i - from]);
            assert forall|j: int| 0 <= j < extended.len() implies is_hex_digit(
                #[trigger] extended[j],
            ) by {
                if j < i - from {
                    assert(extended[j] == prefix[j]);
                    assert(is_hex_digit(prefix[j]));
                } else {
                    assert(extended[j] == sub[i - from]);
                }
            }
        }
        val = val * 16 + digit;
        i += 1;
    }
    proof {
        assert(sub.subrange(0, to - from) =~= sub);
    }
    Some(val as u16)
}

/// The colon-separated segments of the characters between `from` and
/// `to`; an empty range is zero segments. With `quad_end`, the last
/// segment may be an embedded dotted-quad IPv4 literal.
fn parse_segments(chars: &Vec<char>, from: usize, to: usize, quad_end: bool) -> (r: Option<
    Vec<u16>,
>)
    requires
        from <= to <= chars@.len(),
    ensures
        match r {
            Some(v) => segments_model(chars@.subrange(from as int, to as int), quad_end) == Some(
                v@,
            ),
            None => segments_model(chars@.subrange(from as int, to as int), quad_end) is None,
        },
{
    let ghost sub = chars@.subrange(from as int, to as int);
    let mut acc: Vec<u16> = Vec::new();
    if from == to {
        return Some(acc);
    }
    let mut pos = from;
    proof {
        assert(sub.subrange(pos - from, sub.len() as int) =~= sub);
    }
    loop
        invariant
            from <= pos < to <= chars@.len(),
            sub == chars@.subrange(from as int, to as int),
            match segments_model(sub.subrange(pos - from, sub.len() as int), quad_end) {
                Some(rest) => segments_model(sub, quad_end) == Some(acc@ + rest),
                None => segments_model(sub, quad_end) is None,
            },
        decreases to - pos,
    {
        let ghost suffix = sub.subrange(pos - from, sub.len() as int);
        // scan for the next separator
        let mut q = pos;
        while q < to && chars[q] != ':'
            invariant
                pos <= q <= to <= chars@.len(),
                forall|j: int| pos <= j < q ==> chars@[j] != ':',
            decreases to - q,
        {
            q += 1;
        }
        proof {
            assert(suffix.len() == to - pos);
            assert(forall|j: int|
                0 <= j < q - pos ==> suffix[j] == chars@[pos + j] && #[trigger] suffix[j] != ':');
            if q < to {
                assert(suffix[q - pos] == chars@[q as int]);
                lemma_find_char_at(suffix, ':', q - pos);
            } else {
                lemma_find_char_none(suffix, ':');
            }
            assert(suffix.subrange(0, q - pos) =~= chars@.subrange(pos as int, q as int));
        }
        if q == to {
            // the last segment: scan it for an embedded dotted quad
            let mut d = pos;
            while d < to && chars[d] != '.'
                invariant
                    pos <= d <= to <= chars@.len(),
                    forall|j: int| pos <= j < d ==> chars@[j] != '.',
                decreases to - d,
            {
                d += 1;
            }
            proof {
                assert(forall|j: int|
                    0 <= j < d - pos ==> suffix[j] == chars@[pos + j] && #[trigger] suffix[j]
                        != '.');
                if d < to {
                    assert(suffix[d - pos] == chars@[d as int]);
                    lemma_find_char_some(suffix, '.', d - pos);
                } else {
                    lemma_find_char_none(suffix, '.');
                }
                assert(chars@.subrange(pos as int, q as int) =~= suffix);
            }
            if quad_end && d < to {
                // the last two segments come from the dotted quad
                match parse_ipv4_range(chars, pos, q) {
                    None => {
                        return None;
                    },
                    Some(a) => {
                        let o = a.octets;
                        let hi: u16 = (o[0] as u16) * 256 + (o[1] as u16);
                        let lo: u16 = (o[2] as u16) * 256 + (o[3] as u16);
                        acc.push(hi);
                        acc.push(lo);
                        proof {
                            assert(segments_model(suffix, quad_end) == Some(
                                seq![quad_high(a.octets@), quad_low(a.octets@)],
                            ));
                            assert(hi == quad_high(a.octets@));
                            assert(lo == quad_low(a.octets@));
                            assert(acc@ =~= acc@.subrange(0, acc@.len() - 2) + seq![hi, lo]);
                        }
                        return Some(acc);
                    },
                }
            }
            match parse_hex_segment(chars, pos, q) {
                None => {
                    return None;
                },
                Some(v) => {
                    acc.push(v);
                    proof {
                        assert(suffix.subrange(0, q - pos) =~= suffix);
                        assert(segments_model(suffix, quad_end) == Some(seq![v]));
                        assert(acc@ =~= acc@.subrange(0, acc@.len() - 1) + seq![v]);
                    }
                    return Some(acc);
                },
            }
        }
        if q + 1 == to {
            // trailing separator
            return None;
        }
        match parse_hex_segment(chars, pos, q) {
            None => {
                return None;
            },
            Some(v) => {
                acc.push(v);
                proof {
                    assert(suffix.subrange(q - pos + 1, suffix.len() as int) =~= sub.subrange(
                        q + 1 - from,
                        sub.len() as int,
                    ));
                    assert(acc@.subrange(0, acc@.len() - 1).push(v) =~= acc@);
                    assert forall|rest: Seq<u16>|
                        true implies (acc@.subrange(0, acc@.len() - 1) + (seq![v] + rest)) =~= (acc@
                        + rest) by {}
                }
                pos = q + 1;
            },
        }
    }
}

/// Finds the first `::` in the characters, if any.
fn find_dc(chars: &Vec<char>) -> (r: Option<usize>)
    ensures
        match r {
            Some(i) => find_double_colon(chars@) == Some(i as int),
            None => find_double_colon(chars@) is None,
        },
{
    let n = chars.len();
    let mut q: usize = 0;
    while q < n && q + 1 < n
        invariant
            n == chars@.len(),
            q <= n,
            forall|j: int| #![trigger chars@[j]] 0 <= j < q ==> !(chars@[j] == ':' && chars@[j + 1] == ':'),
        decreases n - q,
    {
        if chars[q] == ':' && chars[q + 1] == ':' {
            proof {
                lemma_find_double_colon_at(chars@, q as int);
            }
            return Some(q);
        }
        q += 1;
    }
    proof {
        lemma_find_double_colon_none(chars@);
    }
    None
}

/// Parses an IPv6 literal; accepts exactly the valid literals and
/// returns the eight segment values.
pub fn parse_ipv6(s: &str) -> (r: Option<Ipv6Address>)
    ensures
        match r {
            Some(a) => ipv6_model(s@) == Some(a.segments@),
            None => ipv6_model(s@) is None,
        },
{
    let chars = crate::text::str_to_chars(s);
    let n = chars.len();
    match find_dc(&chars) {
        None => {
            proof {
                assert(chars@.subrange(0, n as int) =~= s@);
            }
            match parse_segments(&chars, 0, n, true) {
                None => None,
                Some(v) => {
                    if v.len() == 8 {
                        let segments: [u16; 8] = [
                            v[0],
                            v[1],
                            v[2],
                            v[3],
                            v[4],
                            v[5],
                            v[6],
                            v[7],
                        ];
                        proof {
                            assert(segments@ =~= v@);
                        }
                        Some(Ipv6Address { segments })
                    } else {
                        None
                    }
                },
            }
        },
        Some(i) => {
            proof {
                lemma_find_double_colon_bounds(s@);
            }
            match parse_segments(&chars, 0, i, false) {
                None => None,
                Some(l) => match parse_segments(&chars, i + 2, n, true) {
                    None => None,
                    Some(rt) => {
                        if l.len() <= 7 && rt.len() <= 7 - l.len() {
                            let zeros_needed = 8 - l.len() - rt.len();
                            let mut segs: Vec<u16> = Vec::new();
                            let mut k: usize = 0;
                            while k < l.len()
                                invariant
                                    k <= l@.len(),
                                    segs@ == l@.subrange(0, k as int),
                                decreases l@.len() - k,
                            {
                                segs.push(l[k]);
                                proof {
                                    assert(segs@ =~= l@.subrange(0, k as int + 1));
                                }
                                k += 1;
                            }
                            proof {
                                assert(l@.subrange(0, l@.len() as int) =~= l@);
                            }
                            let mut z: usize = 0;
                            while z < zeros_needed
                                invariant
                                    z <= zeros_needed,
                                    segs@ == l@ + zero_segments(z as nat),
                                decreases zeros_needed - z,
                            {
                                segs.push(0u16);
                                proof {
                                    assert(segs@ =~= l@ + zero_segments((z + 1) as nat));
                                }
                                z += 1;
                            }
                            let mut m: usize = 0;
                            while m < rt.len()
                                invariant
                                    m <= rt@.len(),
                                    segs@ == l@ + zero_segments(zeros_needed as nat)
                                        + rt@.subrange(0, m as int),
                                    zeros_needed == 8 - l@.len() - rt@.len(),
                                decreases rt@.len() - m,
                            {
                                segs.push(rt[m]);
                                proof {
                                    assert(segs@ =~= l@ + zero_segments(zeros_needed as nat)
                                        + rt@.subrange(0, m as int + 1));
                                }
                                m += 1;
                            }
                            proof {
                                assert(rt@.subrange(0, rt@.len() as int) =~= rt@);
                            }
                            let segments: [u16; 8] = [
                                segs[0],
                                segs[1],
                                segs[2],
                                segs[3],
                                segs[4],
                                segs[5],
                                segs[6],
                                segs[7],
                            ];
                            proof {
                                assert(segments@ =~= segs@);
                            }
                            Some(Ipv6Address { segments })
                        } else {
                            None
                        }
                    },
                },
            }
        },
    }
}

} // verus!
