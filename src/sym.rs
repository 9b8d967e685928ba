//! Parsing of sym files, which map symbol names to addresses.
//!
//! Each line holds an address (`bank:address`, `BOOT:address` or a bare address,
//! in hexadecimal), whitespace, then a symbol name; a `;` starts a comment. Names
//! match `[A-Za-z_]([A-Za-z0-9_@#$.]|\u[0-9A-Fa-f]{4}|\U[0-9A-Fa-f]{8})*`, where
//! the escapes stand for the character of that code point.

use vstd::prelude::*;
use vstd::string::*;

verus! {

/// A symbol's location.
#[derive(Clone, Copy, Debug, PartialEq, Eq, Hash, Structural)]
pub enum Location {
    /// The symbol refers to a specific memory bank.
    Banked(u32, u16),
    /// The symbol refers to the boot ROM.
    Boot(u16),
    /// The symbol refers to a memory address, but not to a specific bank.
    Unbanked(u16),
}

/// Why a hexadecimal number could not be read.
#[derive(Clone, Copy, Debug, PartialEq, Eq, Structural)]
pub enum IntError {
    /// There were no characters.
    Empty,
    /// A character is not a hexadecimal digit (an optional leading `+` aside).
    InvalidDigit,
    /// The number does not fit.
    Overflow,
}

/// An error encountered when parsing a sym file line.
#[derive(Clone, Copy, Debug, PartialEq, Eq, Structural)]
pub enum ParseError {
    BadBank(IntError),
    BadAddress(IntError),
    /// The name does not start with a letter or `_`; `\` stands for an empty start.
    BadFirstLetter(char),
    /// A character that names may not hold.
    BadChar(char),
    /// A `\` followed by something other than `u` or `U`.
    BadEscape(char),
    /// An escape sequence cut short.
    TruncatedEscape,
    BadCodepoint(IntError),
    /// The escape names no Unicode scalar value.
    InvalidCodepoint(u32),
}

/// The value of a hexadecimal digit.
pub open spec fn hex_digit(c: char) -> Option<int> {
    let v = c as u32;
    if 48 <= v <= 57 {
        Some(v - 48)
    } else if 65 <= v <= 70 {
        Some(v - 55)
    } else if 97 <= v <= 102 {
        Some(v - 87)
    } else {
        None
    }
}

/// The value of a string of hexadecimal digits.
pub open spec fn hex_value(s: Seq<char>) -> int
    decreases s.len(),
{
    if s.len() == 0 {
        0
    } else {
        hex_value(s.drop_last()) * 16 + hex_digit(s.last()).unwrap_or(0)
    }
}

/// `s` without its leading `+`, if any.
pub open spec fn unsigned_part(s: Seq<char>) -> Seq<char> {
    if s.len() > 0 && s[0] == '+' {
        s.drop_first()
    } else {
        s
    }
}

/// Whether every character of `s` is a hexadecimal digit.
pub open spec fn all_hex(s: Seq<char>) -> bool {
    forall|i: int| 0 <= i < s.len() ==> hex_digit(#[trigger] s[i]) is Some
}

/// Reads a hexadecimal number of at most `max`: an optional `+`, then one or
/// more digits.
pub open spec fn parse_hex(s: Seq<char>, max: int) -> Result<int, IntError> {
    let digits = unsigned_part(s);
    if s.len() == 0 {
        Err(IntError::Empty)
    } else if digits.len() == 0 || !all_hex(digits) {
        Err(IntError::InvalidDigit)
    } else if hex_value(digits) > max {
        Err(IntError::Overflow)
    } else {
        Ok(hex_value(digits))
    }
}

/// The first index in `[i, end)` holding `c`, or `end`.
pub open spec fn find_char(s: Seq<char>, i: int, end: int, c: char) -> int
    decreases end - i,
{
    if i >= end {
        end
    } else if s[i] == c {
        i
    } else {
        find_char(s, i + 1, end, c)
    }
}

/// The first index in `[i, end)` holding a space or a tab, or `end`.
pub open spec fn find_sep(s: Seq<char>, i: int, end: int) -> int
    decreases end - i,
{
    if i >= end {
        end
    } else if s[i] == ' ' || s[i] == '\t' {
        i
    } else {
        find_sep(s, i + 1, end)
    }
}

/// The characters a name may hold: letters, digits, `_@#$.`, and `\` for escapes.
pub open spec fn is_name_char(c: char) -> bool {
    let v = c as u32;
    (65 <= v <= 90) || (97 <= v <= 122) || (48 <= v <= 57) || c == '_' || c == '@' || c == '#'
        || c == '$' || c == '.' || c == '\\'
}

pub open spec fn is_first_letter(c: char) -> bool {
    let v = c as u32;
    (65 <= v <= 90) || (97 <= v <= 122) || c == '_'
}

/// The first index in `[i, end)` holding a character that names may not hold,
/// or `end`.
pub open spec fn find_bad(s: Seq<char>, i: int, end: int) -> int
    decreases end - i,
{
    if i >= end {
        end
    } else if !is_name_char(s[i]) {
        i
    } else {
        find_bad(s, i + 1, end)
    }
}

/// Whether `s` is `BOOT`, in any case.
pub open spec fn is_boot(s: Seq<char>) -> bool {
    s.len() == 4 && (s[0] == 'B' || s[0] == 'b') && (s[1] == 'O' || s[1] == 'o') && (s[2] == 'O'
        || s[2] == 'o') && (s[3] == 'T' || s[3] == 't')
}

/// Whether `v` is a Unicode scalar value.
pub open spec fn is_scalar(v: int) -> bool {
    (0 <= v < 0xD800) || (0xE000 <= v <= 0x10FFFF)
}

/// The character whose code point is `v`.
pub open spec fn char_with_code(v: int) -> char {
    (v as u32) as char
}

/// The location written in `s[lo..hi]`.
pub open spec fn parse_location(s: Seq<char>, lo: int, hi: int) -> Result<Location, ParseError> {
    let colon = find_char(s, lo, hi, ':');
    if colon < hi {
        match parse_hex(s.subrange(colon + 1, hi), 0xFFFF) {
            Err(e) => Err(ParseError::BadAddress(e)),
            Ok(a) => if is_boot(s.subrange(lo, colon)) {
                Ok(Location::Boot(a as u16))
            } else {
                match parse_hex(s.subrange(lo, colon), 0xFFFF_FFFF) {
                    Err(e) => Err(ParseError::BadBank(e)),
                    Ok(b) => Ok(Location::Banked(b as u32, a as u16)),
                }
            },
        }
    } else {
        match parse_hex(s.subrange(lo, hi), 0xFFFF) {
            Err(e) => Err(ParseError::BadAddress(e)),
            Ok(a) => Ok(Location::Unbanked(a as u16)),
        }
    }
}

/// `p` followed by a decoded result.
pub open spec fn prepend(p: Seq<char>, r: Result<Seq<char>, ParseError>) -> Result<
    Seq<char>,
    ParseError,
> {
    match r {
        Ok(t) => Ok(p + t),
        Err(e) => Err(e),
    }
}

/// How long the escape that starts with `c` is: 4 digits after `u`, 8 after `U`.
pub open spec fn escape_digits(c: char) -> int {
    if c == 'u' {
        4
    } else if c == 'U' {
        8
    } else {
        0
    }
}

/// Decodes `s[i..hi]`, which follows a `\`: the escape, the characters up to the
/// next `\`, then the escapes that follow.
pub open spec fn decode(s: Seq<char>, i: int, hi: int) -> Result<Seq<char>, ParseError>
    decreases hi - i,
    via decode_decreases
{
    let end = find_char(s, i, hi, '\\');
    if i >= hi || end == i {
        Err(ParseError::TruncatedEscape)
    } else {
        let n = escape_digits(s[i]);
        if n == 0 {
            Err(ParseError::BadEscape(s[i]))
        } else if end - i < 1 + n {
            Err(ParseError::TruncatedEscape)
        } else {
            match parse_hex(s.subrange(i + 1, i + 1 + n), 0xFFFF_FFFF) {
                Err(e) => Err(ParseError::BadCodepoint(e)),
                Ok(v) => if !is_scalar(v) {
                    Err(ParseError::InvalidCodepoint(v as u32))
                } else {
                    let piece = seq![char_with_code(v)] + s.subrange(i + 1 + n, end);
                    if end >= hi {
                        Ok(piece)
                    } else {
                        prepend(piece, decode(s, end + 1, hi))
                    }
                },
            }
        }
    }
}

#[via_fn]
proof fn decode_decreases(s: Seq<char>, i: int, hi: int) {
    if i < hi {
        lemma_find_char_bounds(s, i, hi, '\\');
    }
}

/// The name written in `s[lo..hi]`, escapes decoded.
pub open spec fn parse_name(s: Seq<char>, lo: int, hi: int) -> Result<Seq<char>, ParseError> {
    let bad = find_bad(s, lo, hi);
    let b = find_char(s, lo, hi, '\\');
    if bad < hi {
        Err(ParseError::BadChar(s[bad]))
    } else if b == lo {
        Err(ParseError::BadFirstLetter('\\'))
    } else if !is_first_letter(s[lo]) {
        Err(ParseError::BadFirstLetter(s[lo]))
    } else if b >= hi {
        Ok(s.subrange(lo, hi))
    } else {
        prepend(s.subrange(lo, b), decode(s, b + 1, hi))
    }
}

/// What [`parse_line`] returns for a line: `None` for a line with fewer than two
/// tokens once the comment is stripped; else the name (the second token) and the
/// location (the first token).
pub open spec fn line_meaning(s: Seq<char>) -> Result<Option<(Seq<char>, Location)>, ParseError> {
    let n = find_char(s, 0, s.len() as int, ';');
    let e1 = find_sep(s, 0, n);
    if e1 >= n {
        Ok(None)
    } else {
        let e2 = find_sep(s, e1 + 1, n);
        match parse_location(s, 0, e1) {
            Err(e) => Err(e),
            Ok(loc) => match parse_name(s, e1 + 1, e2) {
                Err(e) => Err(e),
                Ok(name) => Ok(Some((name, loc))),
            },
        }
    }
}

proof fn lemma_find_char_bounds(s: Seq<char>, i: int, end: int, c: char)
    requires
        i <= end,
    ensures
        i <= find_char(s, i, end, c) <= end,
        find_char(s, i, end, c) < end ==> s[find_char(s, i, end, c)] == c,
    decreases end - i,
{
    if i < end && s[i] != c {
        lemma_find_char_bounds(s, i + 1, end, c);
    }
}

/// Relies on `char::from_u32`: the character of a Unicode scalar value, and
/// `None` for a surrogate or a value past U+10FFFF.
#[verifier::external_body]
fn char_from_u32(v: u32) -> (r: Option<char>)
    ensures
        r is Some <==> is_scalar(v as int),
        r matches Some(c) ==> c as u32 == v,
{
    char::from_u32(v)
}

/// Relies on `String::push`: the character is appended.
#[verifier::external_body]
fn push_char(s: &mut String, c: char)
    ensures
        final(s)@ == old(s)@.push(c),
{
    s.push(c)
}

/// The characters of `s`, in order.
pub(crate) fn chars_of(s: &str) -> (r: Vec<char>)
    ensures
        r@ == s@,
{
    let n = s.unicode_len();
    let mut out: Vec<char> = Vec::new();
    let mut i: usize = 0;
    while i < n
        invariant
            n == s@.len(),
            i <= n,
            out@ == s@.subrange(0, i as int),
        decreases n - i,
    {
        out.push(s.get_char(i));
        i += 1;
    }
    proof {
        assert(out@ =~= s@);
    }
    out
}

/// The string of the characters `v[lo..hi]`.
pub(crate) fn string_of(v: &Vec<char>, lo: usize, hi: usize) -> (r: String)
    requires
        lo <= hi <= v.len(),
    ensures
        r@ == v@.subrange(lo as int, hi as int),
{
    let mut out = String::new();
    let mut i = lo;
    while i < hi
        invariant
            lo <= i <= hi <= v.len(),
            out@ == v@.subrange(lo as int, i as int),
        decreases hi - i,
    {
        push_char(&mut out, v[i]);
        proof {
            assert(v@.subrange(lo as int, i + 1) =~= v@.subrange(lo as int, i as int).push(v@[i as int]));
        }
        i += 1;
    }
    out
}

fn find_char_exec(v: &Vec<char>, start: usize, end: usize, c: char) -> (r: usize)
    requires
        start <= end <= v.len(),
    ensures
        r == find_char(v@, start as int, end as int, c),
        start <= r <= end,
{
    let mut i = start;
    while i < end
        invariant
            start <= i <= end <= v.len(),
            find_char(v@, start as int, end as int, c) == find_char(v@, i as int, end as int, c),
        decreases end - i,
    {
        if v[i] == c {
            return i;
        }
        i += 1;
    }
    i
}

fn find_sep_exec(v: &Vec<char>, start: usize, end: usize) -> (r: usize)
    requires
        start <= end <= v.len(),
    ensures
        r == find_sep(v@, start as int, end as int),
        start <= r <= end,
{
    let mut i = start;
    while i < end
        invariant
            start <= i <= end <= v.len(),
            find_sep(v@, start as int, end as int) == find_sep(v@, i as int, end as int),
        decreases end - i,
    {
        if v[i] == ' ' || v[i] == '\t' {
            return i;
        }
        i += 1;
    }
    i
}

fn is_name_char_exec(c: char) -> (r: bool)
    ensures
        r == is_name_char(c),
{
    let v = c as u32;
    (65 <= v && v <= 90) || (97 <= v && v <= 122) || (48 <= v && v <= 57) || c == '_' || c == '@'
        || c == '#' || c == '$' || c == '.' || c == '\\'
}

fn find_bad_exec(v: &Vec<char>, start: usize, end: usize) -> (r: usize)
    requires
        start <= end <= v.len(),
    ensures
        r == find_bad(v@, start as int, end as int),
        start <= r <= end,
{
    let mut i = start;
    while i < end
        invariant
            start <= i <= end <= v.len(),
            find_bad(v@, start as int, end as int) == find_bad(v@, i as int, end as int),
        decreases end - i,
    {
        if !is_name_char_exec(v[i]) {
            return i;
        }
        i += 1;
    }
    i
}

fn hex_digit_exec(c: char) -> (r: Option<u32>)
    ensures
        r matches Some(d) ==> hex_digit(c) == Some(d as int),
        r is None ==> hex_digit(c) is None,
{
    let v = c as u32;
    if 48 <= v && v <= 57 {
        Some(v - 48)
    } else if 65 <= v && v <= 70 {
        Some(v - 55)
    } else if 97 <= v && v <= 102 {
        Some(v - 87)
    } else {
        None
    }
}

proof fn lemma_hex_value_nonneg(s: Seq<char>)
    ensures
        hex_value(s) >= 0,
    decreases s.len(),
{
    if s.len() > 0 {
        lemma_hex_value_nonneg(s.drop_last());
    }
}

/// Reads the hexadecimal number in `v[lo..hi]`, of at most `max`.
fn parse_hex_exec(v: &Vec<char>, lo: usize, hi: usize, max: u32) -> (r: Result<u32, IntError>)
    requires
        lo <= hi <= v.len(),
    ensures
        r matches Ok(x) ==> parse_hex(v@.subrange(lo as int, hi as int), max as int) == Ok::<
            int,
            IntError,
        >(x as int),
        r matches Err(e) ==> parse_hex(v@.subrange(lo as int, hi as int), max as int) == Err::<
            int,
            IntError,
        >(e),
{
    let ghost s = v@.subrange(lo as int, hi as int);
    if lo == hi {
        return Err(IntError::Empty);
    }
    let start = if v[lo] == '+' { lo + 1 } else { lo };
    let ghost digits = v@.subrange(start as int, hi as int);
    proof {
        assert(digits =~= unsigned_part(s));
    }
    if start == hi {
        return Err(IntError::InvalidDigit);
    }
    let mut value: u64 = 0;
    let mut over = false;
    let mut i = start;
    while i < hi
        invariant
            start <= i <= hi <= v.len(),
            digits == v@.subrange(start as int, hi as int),
            s == v@.subrange(lo as int, hi as int),
            lo < hi,
            start as int == (if v@[lo as int] == '+' {
                lo + 1
            } else {
                lo as int
            }),
            forall|j: int| start <= j < i ==> hex_digit(v@[j]) is Some,
            !over ==> value as int == hex_value(v@.subrange(start as int, i as int)),
            !over ==> value <= max,
            over ==> hex_value(v@.subrange(start as int, i as int)) > max,
        decreases hi - i,
    {
        let d = match hex_digit_exec(v[i]) {
            Some(d) => d,
            None => {
                proof {
                    assert(digits[i - start] == v@[i as int]);
                    assert(digits =~= unsigned_part(s));
                    assert(hex_digit(digits[i - start]) is None);
                }
                return Err(IntError::InvalidDigit);
            },
        };
        proof {
            let p = v@.subrange(start as int, i as int);
            assert(v@.subrange(start as int, i + 1).drop_last() =~= p);
            lemma_hex_value_nonneg(p);
        }
        if !over {
            let next: u64 = value * 16 + d as u64;
            if next > max as u64 {
                over = true;
            } else {
                value = next;
            }
        }
        i += 1;
    }
    proof {
        assert(v@.subrange(start as int, hi as int) =~= digits);
        assert(digits =~= unsigned_part(s));
        assert(all_hex(digits)) by {
            assert forall|j: int| 0 <= j < digits.len() implies hex_digit(#[trigger] digits[j]) is Some by {
                assert(digits[j] == v@[start + j]);
            }
        }
    }
    if over {
        Err(IntError::Overflow)
    } else {
        Ok(value as u32)
    }
}

/// Parses a sym file line, which should not hold an end-of-line marker.
///
/// Returns `None` for a line with fewer than two tokens once any comment is
/// stripped; else the symbol's name and its location.
pub fn parse_line(line: &str) -> (r: Result<Option<(String, Location)>, ParseError>)
    ensures
        r is Ok <==> line_meaning(line@) is Ok,
        r matches Err(e) ==> line_meaning(line@) == Err::<Option<(Seq<char>, Location)>, ParseError>(
            e,
        ),
        r matches Ok(None) ==> line_meaning(line@) == Ok::<
            Option<(Seq<char>, Location)>,
            ParseError,
        >(None),
        r matches Ok(Some((name, loc))) ==> line_meaning(line@) == Ok::<
            Option<(Seq<char>, Location)>,
            ParseError,
        >(Some((name@, loc))),
{
    let v = chars_of(line);
    let n = find_char_exec(&v, 0, v.len(), ';');
    let e1 = find_sep_exec(&v, 0, n);
    if e1 >= n {
        return Ok(None);
    }
    let e2 = find_sep_exec(&v, e1 + 1, n);
    let location = match parse_location_exec(&v, 0, e1) {
        Ok(loc) => loc,
        Err(e) => return Err(e),
    };
    match parse_name_exec(&v, e1 + 1, e2) {
        Ok(name) => Ok(Some((name, location))),
        Err(e) => Err(e),
    }
}

fn parse_location_exec(v: &Vec<char>, lo: usize, hi: usize) -> (r: Result<Location, ParseError>)
    requires
        lo <= hi <= v.len(),
    ensures
        r == parse_location(v@, lo as int, hi as int),
{
    let colon = find_char_exec(v, lo, hi, ':');
    if colon < hi {
        let address = match parse_hex_exec(v, colon + 1, hi, 0xFFFF) {
            Ok(a) => a as u16,
            Err(e) => return Err(ParseError::BadAddress(e)),
        };
        let is_boot = colon - lo == 4 && (v[lo] == 'B' || v[lo] == 'b') && (v[lo + 1] == 'O'
            || v[lo + 1] == 'o') && (v[lo + 2] == 'O' || v[lo + 2] == 'o') && (v[lo + 3] == 'T'
            || v[lo + 3] == 't');
        proof {
            let b = v@.subrange(lo as int, colon as int);
            assert(b.len() == 4 ==> b[0] == v@[lo as int] && b[1] == v@[lo + 1] && b[2] == v@[lo
                + 2] && b[3] == v@[lo + 3]);
        }
        if is_boot {
            Ok(Location::Boot(address))
        } else {
            match parse_hex_exec(v, lo, colon, 0xFFFF_FFFF) {
                Ok(b) => Ok(Location::Banked(b, address)),
                Err(e) => Err(ParseError::BadBank(e)),
            }
        }
    } else {
        match parse_hex_exec(v, lo, hi, 0xFFFF) {
            Ok(a) => Ok(Location::Unbanked(a as u16)),
            Err(e) => Err(ParseError::BadAddress(e)),
        }
    }
}

/// Appends `v[lo..hi]` to `out`.
fn push_range(out: &mut String, v: &Vec<char>, lo: usize, hi: usize)
    requires
        lo <= hi <= v.len(),
    ensures
        final(out)@ == old(out)@ + v@.subrange(lo as int, hi as int),
{
    let mut i = lo;
    while i < hi
        invariant
            lo <= i <= hi <= v.len(),
            out@ == old(out)@ + v@.subrange(lo as int, i as int),
        decreases hi - i,
    {
        push_char(out, v[i]);
        proof {
            assert(old(out)@ + v@.subrange(lo as int, i + 1) =~= old(out)@ + v@.subrange(
                lo as int,
                i as int,
            ) + seq![v@[i as int]]);
        }
        i += 1;
    }
}

fn parse_name_exec(v: &Vec<char>, lo: usize, hi: usize) -> (r: Result<String, ParseError>)
    requires
        lo <= hi <= v.len(),
    ensures
        r matches Ok(name) ==> parse_name(v@, lo as int, hi as int) == Ok::<Seq<char>, ParseError>(
            name@,
        ),
        r matches Err(e) ==> parse_name(v@, lo as int, hi as int) == Err::<Seq<char>, ParseError>(
            e,
        ),
{
    let bad = find_bad_exec(v, lo, hi);
    let b = find_char_exec(v, lo, hi, '\\');
    if bad < hi {
        return Err(ParseError::BadChar(v[bad]));
    }
    if b == lo {
        return Err(ParseError::BadFirstLetter('\\'));
    }
    let first = v[lo];
    let fv = first as u32;
    if !((65 <= fv && fv <= 90) || (97 <= fv && fv <= 122) || first == '_') {
        return Err(ParseError::BadFirstLetter(first));
    }
    let mut name = string_of(v, lo, b);
    if b >= hi {
        return Ok(name);
    }
    let mut i = b + 1;
    let ghost head = name@;
    loop
        invariant
            b < i <= hi <= v.len(),
            parse_name(v@, lo as int, hi as int) == prepend(name@, decode(v@, i as int, hi as int)),
        decreases hi - i,
    {
        let end = find_char_exec(v, i, hi, '\\');
        if i >= hi || end == i {
            return Err(ParseError::TruncatedEscape);
        }
        let c = v[i];
        let n: usize = if c == 'u' { 4 } else if c == 'U' { 8 } else { 0 };
        if n == 0 {
            return Err(ParseError::BadEscape(c));
        }
        if end - i < 1 + n {
            return Err(ParseError::TruncatedEscape);
        }
        let code = match parse_hex_exec(v, i + 1, i + 1 + n, 0xFFFF_FFFF) {
            Ok(x) => x,
            Err(e) => return Err(ParseError::BadCodepoint(e)),
        };
        let ch = match char_from_u32(code) {
            Some(ch) => ch,
            None => return Err(ParseError::InvalidCodepoint(code)),
        };
        proof {
            vstd::utf8::char_u32_cast(ch, code);
        }
        let ghost before = name@;
        push_char(&mut name, ch);
        push_range(&mut name, v, i + 1 + n, end);
        proof {
            let piece = seq![ch] + v@.subrange(i + 1 + n, end as int);
            assert(name@ =~= before + piece);
            if end < hi {
                match decode(v@, end + 1, hi as int) {
                    Ok(t) => {
                        assert(before + (piece + t) =~= name@ + t);
                    },
                    Err(_) => {},
                }
            }
        }
        if end >= hi {
            return Ok(name);
        }
        i = end + 1;
    }
}

} // verus!
