//! Parsing of capture filters written `{start}-{end}` or
//! `{enabled}-{start}-{end}`.

use vstd::prelude::*;
use vstd::std_specs::iter::IteratorSpec;

verus! {

broadcast use vstd::string::group_string_axioms;

/// An address range to which hardware tracing is restricted.
#[derive(Clone, Copy, Debug, PartialEq, Eq, Structural)]
pub struct CaptureFilter {
    pub enabled: bool,
    pub start: u64,
    pub stop: u64,
}

/// Why a capture filter could not be parsed.
#[derive(Clone, Copy, Debug, PartialEq, Eq, Structural)]
pub enum FilterParseError {
    /// The text splits into this many `-`-separated fields, not 2 or 3.
    FieldCount(usize),
    /// The start address is not an integer.
    BadStart,
    /// The end address is not an integer.
    BadStop,
}

/// What parse_int makes of `s` as a `u64`: decimal, or hexadecimal, octal
/// or binary after a `0x`, `0o` or `0b` prefix; `None` where it fails.
pub uninterp spec fn parsed_address(s: Seq<char>) -> Option<u64>;

/// The value of the ASCII digit `c` in base `radix` (10 or 16), if it is one.
pub open spec fn digit_value(c: char, radix: nat) -> Option<nat> {
    if '0' <= c <= '9' {
        Some((c as int - '0' as int) as nat)
    } else if radix == 16 && 'a' <= c <= 'f' {
        Some((c as int - 'a' as int + 10) as nat)
    } else if radix == 16 && 'A' <= c <= 'F' {
        Some((c as int - 'A' as int + 10) as nat)
    } else {
        None
    }
}

/// Whether every character of `s` is a digit in base `radix`.
pub open spec fn all_digits(s: Seq<char>, radix: nat) -> bool {
    forall|i: int| 0 <= i < s.len() ==> (#[trigger] digit_value(s[i], radix)) is Some
}

/// The number that the digits `s` write in base `radix`.
pub open spec fn digits_value(s: Seq<char>, radix: nat) -> nat
    decreases s.len(),
{
    if s.len() == 0 {
        0
    } else {
        digits_value(s.drop_last(), radix) * radix + match digit_value(s.last(), radix) {
            Some(d) => d,
            None => 0,
        }
    }
}

/// Whether `c` is an ASCII letter.
pub open spec fn is_ascii_letter(c: char) -> bool {
    ('a' <= c <= 'z') || ('A' <= c <= 'Z')
}

/// Relies on parse_int::parse::<u64>: the result depends on the text alone.
/// Up to 19 decimal digits, or `0x` and up to 16 hexadecimal digits, give
/// the number they write; an empty text, or one that starts with a letter,
/// gives none.
#[verifier::external_body]
fn parse_filter_address(s: &Vec<char>) -> (r: Option<u64>)
    ensures
        r == parsed_address(s@),
        1 <= s@.len() <= 19 && all_digits(s@, 10) ==> r == Some(digits_value(s@, 10) as u64),
        3 <= s@.len() <= 18 && s@[0] == '0' && s@[1] == 'x' && all_digits(s@.skip(2), 16) ==> r
            == Some(digits_value(s@.skip(2), 16) as u64),
        s@.len() == 0 ==> r is None,
        s@.len() > 0 && is_ascii_letter(s@[0]) ==> r is None,
{
    let text: String = s.iter().collect();
    parse_int::parse::<u64>(&text).ok()
}

/// The fields of `cs` between the `-` characters.
pub open spec fn split_dash(cs: Seq<char>) -> Seq<Seq<char>>
    decreases cs.len(),
{
    if cs.len() == 0 {
        seq![Seq::empty()]
    } else {
        let p = split_dash(cs.drop_last());
        if cs.last() == '-' {
            p.push(Seq::empty())
        } else {
            p.update(p.len() - 1, p.last().push(cs.last()))
        }
    }
}

pub proof fn lemma_split_dash_nonempty(cs: Seq<char>)
    ensures
        split_dash(cs).len() >= 1,
    decreases cs.len(),
{
    if cs.len() > 0 {
        lemma_split_dash_nonempty(cs.drop_last());
    }
}

/// The filter made of the parsed start and end addresses, where both parsed,
/// and whether it is enabled.
pub open spec fn filter_from_values(enabled: bool, start: Option<u64>, stop: Option<u64>) -> Result<
    CaptureFilter,
    FilterParseError,
> {
    match start {
        None => Err(FilterParseError::BadStart),
        Some(a) => match stop {
            None => Err(FilterParseError::BadStop),
            Some(b) => Ok(CaptureFilter { enabled, start: a, stop: b }),
        },
    }
}

/// The filter made of a start field, an end field and whether it is enabled.
pub open spec fn filter_from(enabled: bool, start: Seq<char>, stop: Seq<char>) -> Result<
    CaptureFilter,
    FilterParseError,
> {
    filter_from_values(enabled, parsed_address(start), parsed_address(stop))
}

/// Builds a filter from the addresses parsed out of its start and end
/// fields: a field that did not parse is the error.
pub fn filter_from_parsed(enabled: bool, start: Option<u64>, stop: Option<u64>) -> (r: Result<
    CaptureFilter,
    FilterParseError,
>)
    ensures
        r == filter_from_values(enabled, start, stop),
{
    match start {
        None => Err(FilterParseError::BadStart),
        Some(a) => match stop {
            None => Err(FilterParseError::BadStop),
            Some(b) => Ok(CaptureFilter { enabled, start: a, stop: b }),
        },
    }
}

/// The filter that the text `cs` describes. With three fields, the first
/// disables the filter exactly when it is `false`.
pub open spec fn filter_of(cs: Seq<char>) -> Result<CaptureFilter, FilterParseError> {
    let f = split_dash(cs);
    if f.len() == 2 {
        filter_from(true, f[0], f[1])
    } else if f.len() == 3 {
        filter_from(f[0] != seq!['f', 'a', 'l', 's', 'e'], f[1], f[2])
    } else {
        Err(FilterParseError::FieldCount(f.len() as usize))
    }
}

/// The characters of `s`.
fn chars_of(s: &str) -> (r: Vec<char>)
    ensures
        r@ == s@,
{
    let mut it = s.chars();
    let mut out: Vec<char> = Vec::new();
    loop
        invariant
            out@ + it.remaining() == s@,
            it.decrease() is Some,
        ensures
            out@ == s@,
        decreases it.decrease()->0,
    {
        let ghost before = it.remaining();
        match it.next() {
            Some(c) => {
                out.push(c);
                assert(out@ + it.remaining() =~= s@);
            },
            None => {
                assert(before.len() == 0);
                assert(out@ =~= s@);
                break ;
            },
        }
    }
    out
}

/// Splits `cs` at each `-`.
fn split_fields(cs: &Vec<char>) -> (r: Vec<Vec<char>>)
    ensures
        r@.map_values(|f: Vec<char>| f@) == split_dash(cs@),
{
    let mut fields: Vec<Vec<char>> = Vec::new();
    fields.push(Vec::new());
    let mut i: usize = 0;
    assert(cs@.take(0) =~= Seq::<char>::empty());
    assert(fields@.map_values(|f: Vec<char>| f@) =~= split_dash(cs@.take(0)));
    while i < cs.len()
        invariant
            i <= cs@.len(),
            fields@.len() >= 1,
            fields@.map_values(|f: Vec<char>| f@) == split_dash(cs@.take(i as int)),
        decreases cs@.len() - i,
    {
        let c = cs[i];
        let ghost pre = fields@.map_values(|f: Vec<char>| f@);
        assert(cs@.take(i + 1).drop_last() =~= cs@.take(i as int));
        if c == '-' {
            fields.push(Vec::new());
            assert(fields@.map_values(|f: Vec<char>| f@) =~= pre.push(Seq::empty()));
        } else {
            let k = fields.len() - 1;
            let mut last = fields.pop().unwrap();
            last.push(c);
            fields.push(last);
            assert(fields@.map_values(|f: Vec<char>| f@) =~= pre.update(
                k as int,
                pre.last().push(c),
            ));
        }
        i = i + 1;
    }
    assert(cs@.take(cs@.len() as int) =~= cs@);
    fields
}

/// Whether `f` is the token `false`.
fn is_false_token(f: &Vec<char>) -> (r: bool)
    ensures
        r == (f@ == seq!['f', 'a', 'l', 's', 'e']),
{
    if f.len() != 5 {
        return false;
    }
    let r = f[0] == 'f' && f[1] == 'a' && f[2] == 'l' && f[3] == 's' && f[4] == 'e';
    if r {
        assert(f@ =~= seq!['f', 'a', 'l', 's', 'e']);
    }
    r
}

fn filter_from_fields(enabled: bool, start: &Vec<char>, stop: &Vec<char>) -> (r: Result<
    CaptureFilter,
    FilterParseError,
>)
    ensures
        r == filter_from(enabled, start@, stop@),
{
    let a = parse_filter_address(start);
    let b = parse_filter_address(stop);
    filter_from_parsed(enabled, a, b)
}

/// Parses a capture filter: `{start}-{end}` gives an enabled filter, and
/// `{enabled}-{start}-{end}` one that is disabled exactly when `{enabled}`
/// is `false`. Any other number of fields, or an address that is not an
/// integer, is an error.
pub fn parse_capture_filter(s: &str) -> (r: Result<CaptureFilter, FilterParseError>)
    ensures
        r == filter_of(s@),
{
    let cs = chars_of(s);
    let fields = split_fields(&cs);
    let ghost f = split_dash(cs@);
    let n = fields.len();
    assert(f.len() == n);
    if n == 2 {
        assert(fields[0]@ == f[0] && fields[1]@ == f[1]);
        filter_from_fields(true, &fields[0], &fields[1])
    } else if n == 3 {
        assert(fields[0]@ == f[0] && fields[1]@ == f[1] && fields[2]@ == f[2]);
        let disabled = is_false_token(&fields[0]);
        filter_from_fields(!disabled, &fields[1], &fields[2])
    } else {
        Err(FilterParseError::FieldCount(n))
    }
}

} // verus!
