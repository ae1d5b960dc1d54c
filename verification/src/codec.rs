//! The text codec: parsing a value from text and formatting one to text.
//!
//! Both directions delegate the numeric work to `rustc_apfloat`, which
//! defines the accepted grammar (decimal and scientific notation, the
//! inf/nan spellings) and the rounding of the result; this module owns the
//! two things around the delegation: the embedded-null check that a
//! null-terminated transfer makes necessary — a text holding a null byte
//! is rejected, never silently truncated — and the printf-like
//! format directive, `%Qg`, `%Qe`, or either with a `.digits` precision
//! modifier, that selects the notation and the number of significant
//! digits.  The default textual representation uses 36 significant digits
//! in the general notation; the scientific one is the lower-case alternate.
use vstd::prelude::*;
use vstd::string::StringSliceAdditionalSpecFns;

use rustc_apfloat::ieee::Quad;
use rustc_apfloat::Float;

use crate::{Error, F128};

verus! {

/// What the external parser makes of the text: the bit pattern of the
/// parsed value, or nothing where the text is not a well-formed number.
pub uninterp spec fn quad_from_text(bytes: Seq<u8>) -> Option<u128>;

/// The text the external formatter produces for the value: at most
/// `precision` significant digits, in scientific notation when asked and
/// otherwise in the general notation that falls back to scientific only
/// for extreme magnitudes.
pub uninterp spec fn quad_format(b: u128, precision: usize, scientific: bool) -> Seq<char>;

/// The longest text the parser is handed: its hexadecimal reader counts
/// digit positions in a 32-bit exponent, so texts of 2^31 bytes or more
/// are declined before the call.
pub const MAX_PARSE_LEN: usize = 0x80000000;

/// Relies on `Quad`'s `FromStr` (round to nearest, ties to even): the
/// accepted grammar covers decimal and scientific notation, hexadecimal
/// forms and the inf/nan spellings; malformed text is reported, not
/// coerced.  A pure function of the text.  Texts shorter than 2^31 bytes
/// keep every digit-position distance of its hexadecimal reader inside a
/// 32-bit exponent, so the call returns on all of them.
#[verifier::external_body]
fn apf_parse(s: &str) -> (r: Option<u128>)
    requires
        s.spec_bytes().len() < MAX_PARSE_LEN,
    ensures
        r == quad_from_text(s.spec_bytes()),
{
    match s.parse::<Quad>() {
        Ok(q) => Some(q.to_bits()),
        Err(_) => None,
    }
}

/// Relies on `Quad`'s `Display`: decimal text with at most `precision`
/// significant digits; the alternate zero-width form is the lower-case
/// scientific notation.  A pure function of its arguments.  A literal
/// precision of zero is excluded: the formatter treats it as a digit
/// count and can round every digit away, where printf's rule reads it
/// as one digit.
#[verifier::external_body]
fn apf_format(b: u128, precision: usize, scientific: bool) -> (r: String)
    requires
        1 <= precision,
    ensures
        r@ == quad_format(b, precision, scientific),
{
    let q = Quad::from_bits(b);
    if scientific {
        format!("{:#w$.p$}", q, w = 0usize, p = precision)
    } else {
        format!("{:.p$}", q, p = precision)
    }
}

/// True of the bytes of an ASCII decimal digit.
pub open spec fn is_digit_byte(c: u8) -> bool {
    0x30 <= c <= 0x39
}

/// The number the digit bytes spell in decimal, most significant first.
pub open spec fn digits_value(ds: Seq<u8>) -> nat
    decreases ds.len(),
{
    if ds.len() == 0 {
        0
    } else {
        (digits_value(ds.drop_last()) * 10 + (ds.last() - 0x30)) as nat
    }
}

/// The format directive the bytes spell, if any: `%Qg` or `%Qe`, with an
/// optional `.digits` precision modifier of one to four digits between the
/// `%` and the `Q`.  Without a modifier the printf default of six
/// significant digits applies, a written `.0` means one digit as printf
/// reads it, and `e` selects scientific notation.
pub open spec fn spec_fmt_directive(f: Seq<u8>) -> Option<(usize, bool)> {
    if f.len() >= 3 && f[0] == 0x25u8 && f[f.len() - 2] == 0x51u8 && (f.last() == 0x67u8
        || f.last() == 0x65u8) {
        let sci = f.last() == 0x65u8;
        let mid = f.subrange(1, f.len() - 2);
        if mid.len() == 0 {
            Some((6usize, sci))
        } else if 2 <= mid.len() <= 5 && mid[0] == 0x2Eu8 && (forall|i: int|
            1 <= i < mid.len() ==> is_digit_byte(#[trigger] mid[i])) {
            let p = digits_value(mid.subrange(1, mid.len() as int));
            Some(((if 1 <= p <= 9999 { p as usize } else { 1usize }), sci))
        } else {
            None
        }
    } else {
        None
    }
}

/// True iff the text holds a null byte anywhere: such a text cannot cross
/// a null-terminated transfer.
fn contains_nul(s: &str) -> (r: bool)
    ensures
        r == s.spec_bytes().contains(0u8),
{
    let bytes = s.as_bytes();
    let n = bytes.len();
    let mut i: usize = 0;
    while i < n
        invariant
            0 <= i <= n,
            n == s.spec_bytes().len(),
            bytes@ == s.spec_bytes(),
            forall|j: int| 0 <= j < i ==> s.spec_bytes()[j] != 0u8,
        decreases n - i,
    {
        if bytes[i] == 0u8 {
            assert(s.spec_bytes().contains(0u8));
            return true;
        }
        i = i + 1;
    }
    assert(!s.spec_bytes().contains(0u8));
    false
}

impl F128 {
    /// The value the text denotes.  A text holding a null byte fails with
    /// the encoding error — never a silent truncation at the null — and a
    /// text the external parser does not accept fails as malformed, as does
    /// one of two gibibytes or more, which is never handed to the parser;
    /// every other text yields the value the parser defines for it.
    pub fn parse(s: &str) -> (r: Result<Self, Error>)
        ensures
            s.spec_bytes().contains(0u8) <==> r == Err::<F128, Error>(Error::EmbeddedNul),
            !s.spec_bytes().contains(0u8) && s.spec_bytes().len() < MAX_PARSE_LEN ==> match
                quad_from_text(s.spec_bytes()) {
                Some(b) => r matches Ok(v) && v@ == b,
                None => r == Err::<F128, Error>(Error::Malformed),
            },
            !s.spec_bytes().contains(0u8) && s.spec_bytes().len() >= MAX_PARSE_LEN ==> r
                == Err::<F128, Error>(Error::Malformed),
    {
        if contains_nul(s) {
            return Err(Error::EmbeddedNul);
        }
        let bs = s.as_bytes();
        proof {
            vstd::slice::axiom_spec_len(bs);
        }
        if bs.len() >= MAX_PARSE_LEN {
            return Err(Error::Malformed);
        }
        match apf_parse(s) {
            Some(b) => Ok(F128 { bits: b }),
            None => Err(Error::Malformed),
        }
    }

    /// The default textual representation: the general notation with 36
    /// significant digits.
    pub fn to_string(&self) -> (r: String)
        ensures
            r@ == quad_format(self@, 36, false),
    {
        apf_format(self.bits, 36, false)
    }

    /// The alternate lower-case scientific representation with 36
    /// significant digits.
    pub fn to_string_exp(&self) -> (r: String)
        ensures
            r@ == quad_format(self@, 36, true),
    {
        apf_format(self.bits, 36, true)
    }

    /// The value formatted under the given directive.  A directive holding
    /// a null byte yields nothing, as does one outside the supported
    /// `%[.digits]Q[ge]` family — a deliberate narrowing to the fixed and
    /// scientific conversions with precision, the minimum the format
    /// mini-language asks for, since no printf engine stands behind this
    /// codec to give other conversions a meaning; otherwise the external
    /// formatter's text
    /// for the asked precision and notation is returned.
    pub fn to_string_fmt(&self, fmt: &str) -> (r: Option<String>)
        ensures
            fmt.spec_bytes().contains(0u8) ==> r is None,
            !fmt.spec_bytes().contains(0u8) ==> match spec_fmt_directive(fmt.spec_bytes()) {
                Some(d) => r matches Some(s) && s@ == quad_format(self@, d.0, d.1),
                None => r is None,
            },
    {
        if contains_nul(fmt) {
            return None;
        }
        match parse_fmt_directive(fmt) {
            Some((precision, scientific)) => Some(apf_format(self.bits, precision, scientific)),
            None => None,
        }
    }
}

/// The executable reading of the format directive, proved to agree with
/// [`spec_fmt_directive`].
fn parse_fmt_directive(fmt: &str) -> (r: Option<(usize, bool)>)
    ensures
        r == spec_fmt_directive(fmt.spec_bytes()),
{
    let bytes = fmt.as_bytes();
    let n = bytes.len();
    if n < 3 || bytes[0] != 0x25u8 || bytes[n - 2] != 0x51u8 || (bytes[n - 1] != 0x67u8 && bytes[n
        - 1] != 0x65u8) {
        return None;
    }
    let ghost f = fmt.spec_bytes();
    let ghost mid = f.subrange(1, f.len() - 2);
    assert(mid.len() == n - 3);
    let sci = bytes[n - 1] == 0x65u8;
    if n == 3 {
        assert(mid.len() == 0);
        return Some((6usize, sci));
    }
    // A precision modifier: a dot and one to four digits.
    if n < 5 || n > 8 || bytes[1] != 0x2Eu8 {
        assert(spec_fmt_directive(f) is None) by {
            if 2 <= mid.len() <= 5 {
                assert(mid[0] == f[1]);
            }
        }
        return None;
    }
    assert(2 <= mid.len() <= 5 && mid[0] == 0x2Eu8);
    let mut value: usize = 0;
    let mut i: usize = 2;
    while i < n - 2
        invariant
            2 <= i <= n - 2,
            5 <= n <= 8,
            n == f.len(),
            f == fmt.spec_bytes(),
            bytes@ == f,
            mid == f.subrange(1, f.len() - 2),
            mid.len() == n - 3,
            f[0] == 0x25u8,
            f[f.len() - 2] == 0x51u8,
            f.last() == 0x67u8 || f.last() == 0x65u8,
            sci == (f.last() == 0x65u8),
            mid[0] == 0x2Eu8,
            forall|j: int| 1 <= j < i - 1 ==> is_digit_byte(#[trigger] mid[j]),
            value == digits_value(mid.subrange(1, i - 1)),
            i == 2 ==> value == 0,
            i == 3 ==> value <= 9,
            i == 4 ==> value <= 99,
            i == 5 ==> value <= 999,
            i == 6 ==> value <= 9999,
        decreases n - i,
    {
        let c = bytes[i];
        if c < 0x30u8 || c > 0x39u8 {
            proof {
                assert(!is_digit_byte(mid[i - 1]) && 1 <= i - 1 < mid.len());
                assert(!(forall|j: int| 1 <= j < mid.len() ==> is_digit_byte(#[trigger] mid[j])));
            }
            return None;
        }
        proof {
            assert(mid.subrange(1, i as int) == mid.subrange(1, i - 1).push(mid[i - 1]));
            assert(mid.subrange(1, i as int).drop_last() == mid.subrange(1, i - 1));
        }
        value = value * 10 + ((c - 0x30u8) as usize);
        i = i + 1;
    }
    assert(mid.subrange(1, mid.len() as int) == mid.subrange(1, i - 1));
    if value == 0 {
        return Some((1usize, sci));
    }
    Some((value, sci))
}

} // verus!
