//! Decimal rendering and parsing of integers, and small string helpers.
use vstd::prelude::*;
use vstd::string::StringSliceAdditionalSpecFns;
use vstd::string::StringExecFns;

verus! {

/// The ASCII character of a decimal digit.
pub open spec fn digit_char(d: nat) -> char {
    (48 + d) as char
}

/// Decimal text of a natural number, most significant digit first, no leading zeros.
pub open spec fn decimal(n: nat) -> Seq<char>
    decreases n,
{
    if n < 10 {
        seq![digit_char(n)]
    } else {
        decimal(n / 10).push(digit_char(n % 10))
    }
}

/// Decimal text of an integer, with a leading '-' for negative numbers.
pub open spec fn int_text(i: int) -> Seq<char> {
    if i < 0 {
        seq!['-'] + decimal((-i) as nat)
    } else {
        decimal(i as nat)
    }
}

/// The string literal of one decimal digit.
fn digit_str(d: u64) -> (r: &'static str)
    requires
        d < 10,
    ensures
        r@ == seq![digit_char(d as nat)],
{
    if d == 0 {
        proof { reveal_strlit("0"); }
        "0"
    } else if d == 1 {
        proof { reveal_strlit("1"); }
        "1"
    } else if d == 2 {
        proof { reveal_strlit("2"); }
        "2"
    } else if d == 3 {
        proof { reveal_strlit("3"); }
        "3"
    } else if d == 4 {
        proof { reveal_strlit("4"); }
        "4"
    } else if d == 5 {
        proof { reveal_strlit("5"); }
        "5"
    } else if d == 6 {
        proof { reveal_strlit("6"); }
        "6"
    } else if d == 7 {
        proof { reveal_strlit("7"); }
        "7"
    } else if d == 8 {
        proof { reveal_strlit("8"); }
        "8"
    } else {
        proof { reveal_strlit("9"); }
        "9"
    }
}

/// Appends the decimal text of `n` to `out`.
pub fn push_u64(out: &mut String, n: u64)
    ensures
        final(out)@ == old(out)@ + decimal(n as nat),
    decreases n,
{
    if n >= 10 {
        push_u64(out, n / 10);
    }
    let d = digit_str(n % 10);
    out.append(d);
    proof {
        if n >= 10 {
            assert(decimal(n as nat) == decimal((n / 10) as nat).push(digit_char((n % 10) as nat)));
        }
    }
}

/// Appends the decimal text of `v` (with '-' when negative) to `out`.
pub fn push_i64(out: &mut String, v: i64)
    ensures
        final(out)@ == old(out)@ + int_text(v as int),
{
    if v < 0 {
        proof { reveal_strlit("-"); }
        out.append("-");
        let m: u64 = if v == i64::MIN {
            9223372036854775808u64
        } else {
            (-v) as u64
        };
        push_u64(out, m);
    } else {
        push_u64(out, v as u64);
    }
}

/// The decimal text of `n`.
pub fn u64_text(n: u64) -> (r: String)
    ensures
        r@ == decimal(n as nat),
{
    let mut s = String::new();
    push_u64(&mut s, n);
    s
}

/// Text equality.
pub fn str_eq(a: &str, b: &str) -> (r: bool)
    ensures
        r == (a@ == b@),
{
    let x = a.as_bytes();
    let y = b.as_bytes();
    proof {
        vstd::utf8::encode_utf8_decode_utf8(a@);
        vstd::utf8::encode_utf8_decode_utf8(b@);
    }
    if x.len() != y.len() {
        return false;
    }
    let mut i: usize = 0;
    while i < x.len()
        invariant
            i <= x@.len(),
            x@.len() == y@.len(),
            x@ == a.spec_bytes(),
            y@ == b.spec_bytes(),
            forall|k: int| 0 <= k < i ==> x@[k] == y@[k],
        decreases x@.len() - i,
    {
        if x[i] != y[i] {
            return false;
        }
        i = i + 1;
    }
    assert(x@ =~= y@);
    true
}

/// Why a text is not the decimal form of a `u64`; the kinds that std's integer
/// parsing reports for an unsigned type.
#[derive(Debug, Clone, Copy, PartialEq, Eq, Structural)]
pub enum ParseIntError {
    /// The text is empty.
    Empty,
    /// A byte that is not an ASCII digit, or a lone sign.
    InvalidDigit,
    /// The number does not fit in the type.
    PosOverflow,
}

pub open spec fn is_digit_byte(b: u8) -> bool {
    48 <= b <= 57
}

/// Left-to-right accumulation of ASCII digits, reporting the first failure
/// met: a non-digit byte, or a value above `u64::MAX`.
pub open spec fn parse_digits(d: Seq<u8>) -> Result<nat, ParseIntError>
    decreases d.len(),
{
    if d.len() == 0 {
        Ok(0)
    } else {
        match parse_digits(d.drop_last()) {
            Err(e) => Err(e),
            Ok(acc) => {
                if !is_digit_byte(d.last()) {
                    Err(ParseIntError::InvalidDigit)
                } else if acc * 10 + (d.last() - 48) > u64::MAX {
                    Err(ParseIntError::PosOverflow)
                } else {
                    Ok((acc * 10 + (d.last() - 48)) as nat)
                }
            },
        }
    }
}

/// What std's `u64::from_str` gives on the bytes of a text: an optional
/// leading '+', then decimal digits.
pub open spec fn parse_u64_spec(s: Seq<u8>) -> Result<u64, ParseIntError> {
    if s.len() == 0 {
        Err(ParseIntError::Empty)
    } else if (s[0] == 43u8 || s[0] == 45u8) && s.len() == 1 {
        Err(ParseIntError::InvalidDigit)
    } else {
        let digits = if s[0] == 43u8 {
            s.drop_first()
        } else {
            s
        };
        match parse_digits(digits) {
            Ok(n) => Ok(n as u64),
            Err(e) => Err(e),
        }
    }
}

/// Parses the bytes `b[start..]` as decimal digits.
fn parse_digit_bytes(b: &[u8], start: usize) -> (r: Result<u64, ParseIntError>)
    requires
        start <= b@.len(),
    ensures
        r == (match parse_digits(b@.skip(start as int)) {
            Ok(n) => Ok(n as u64),
            Err(e) => Err(e),
        }),
{
    let mut acc: u64 = 0;
    let mut i: usize = start;
    assert(b@.skip(start as int).take(0) =~= Seq::<u8>::empty());
    while i < b.len()
        invariant
            start <= i <= b@.len(),
            parse_digits(b@.skip(start as int).take(i - start)) == Ok::<nat, ParseIntError>(acc as nat),
        decreases b@.len() - i,
    {
        let ghost prefix = b@.skip(start as int).take(i + 1 - start);
        assert(prefix.drop_last() =~= b@.skip(start as int).take(i - start));
        assert(prefix.last() == b@[i as int]);
        let c: u8 = b[i];
        if c < 48 || c > 57 {
            proof { lemma_prefix_error_stays(b@.skip(start as int), (i + 1 - start) as int); }
            return Err(ParseIntError::InvalidDigit);
        }
        let d: u64 = (c - 48) as u64;
        match acc.checked_mul(10) {
            None => {
                proof { lemma_prefix_error_stays(b@.skip(start as int), (i + 1 - start) as int); }
                return Err(ParseIntError::PosOverflow);
            },
            Some(m) => {
                match m.checked_add(d) {
                    None => {
                        proof { lemma_prefix_error_stays(b@.skip(start as int), (i + 1 - start) as int); }
                        return Err(ParseIntError::PosOverflow);
                    },
                    Some(v) => {
                        acc = v;
                    },
                }
            },
        }
        i = i + 1;
    }
    assert(b@.skip(start as int).take(i - start) =~= b@.skip(start as int));
    Ok(acc)
}

/// Once a prefix fails, every longer text fails the same way.
proof fn lemma_prefix_error_stays(d: Seq<u8>, k: int)
    requires
        0 <= k <= d.len(),
        parse_digits(d.take(k)) is Err,
    ensures
        parse_digits(d) == parse_digits(d.take(k)),
    decreases d.len() - k,
{
    if k < d.len() {
        let next = d.take(k + 1);
        assert(next.drop_last() =~= d.take(k));
        lemma_prefix_error_stays(d, k + 1);
    } else {
        assert(d.take(k) =~= d);
    }
}

/// Parses a text as std's `u64::from_str` does.
pub fn parse_u64(s: &str) -> (r: Result<u64, ParseIntError>)
    ensures
        r == parse_u64_spec(s.spec_bytes()),
{
    let b = s.as_bytes();
    if b.len() == 0 {
        return Err(ParseIntError::Empty);
    }
    if (b[0] == 43 || b[0] == 45) && b.len() == 1 {
        return Err(ParseIntError::InvalidDigit);
    }
    if b[0] == 43 {
        assert(b@.skip(1) =~= b@.drop_first());
        parse_digit_bytes(b, 1)
    } else {
        assert(b@.skip(0) =~= b@);
        parse_digit_bytes(b, 0)
    }
}

/// The bytes of an ASCII text.
pub open spec fn ascii_bytes(s: Seq<char>) -> Seq<u8> {
    s.map_values(|c: char| c as u8)
}

proof fn lemma_decimal_len(n: nat)
    ensures
        decimal(n).len() >= 1,
        forall|i: int| 0 <= i < decimal(n).len() ==> 48 <= #[trigger] (decimal(n)[i] as int) <= 57,
    decreases n,
{
    if n >= 10 {
        lemma_decimal_len(n / 10);
        assert forall|i: int| 0 <= i < decimal(n).len() implies 48 <= #[trigger] (decimal(n)[i] as int) <= 57 by {
            if i < decimal(n / 10).len() {
                assert(decimal(n)[i] == decimal(n / 10)[i]);
            }
        }
    }
}

proof fn lemma_parse_digits_decimal(n: nat)
    requires
        n <= u64::MAX,
    ensures
        parse_digits(ascii_bytes(decimal(n))) == Ok::<nat, ParseIntError>(n),
    decreases n,
{
    let b = ascii_bytes(decimal(n));
    if n < 10 {
        assert(b.drop_last() =~= Seq::<u8>::empty());
        assert(parse_digits(b.drop_last()) == Ok::<nat, ParseIntError>(0));
    } else {
        lemma_parse_digits_decimal(n / 10);
        assert(b.drop_last() =~= ascii_bytes(decimal(n / 10)));
        assert(b.last() == (48 + n % 10) as u8);
    }
}

/// Reading back the decimal text of a number gives the number: for every
/// `u64` value `n`, std's parsing of `n`'s decimal text yields `n`.
pub proof fn lemma_parse_decimal_roundtrip(n: u64)
    ensures
        parse_u64_spec(ascii_bytes(decimal(n as nat))) == Ok::<u64, ParseIntError>(n),
{
    lemma_decimal_len(n as nat);
    lemma_parse_digits_decimal(n as nat);
    let b = ascii_bytes(decimal(n as nat));
    assert(48 <= (decimal(n as nat)[0] as int) <= 57);
    assert(b[0] == decimal(n as nat)[0] as u8);
}

/// What `push_u64` writes, std's parsing reads back: the bytes of any text
/// equal to the decimal text of `n` parse to `n`.
pub proof fn law_decimal_text_parses_back(s: &str, n: u64)
    requires
        s@ == decimal(n as nat),
    ensures
        parse_u64_spec(s.spec_bytes()) == Ok::<u64, ParseIntError>(n),
{
    lemma_decimal_len(n as nat);
    assert(vstd::utf8::is_ascii_chars(s@));
    vstd::utf8::is_ascii_chars_encode_utf8(s@);
    assert(s.spec_bytes() =~= ascii_bytes(decimal(n as nat)));
    lemma_parse_decimal_roundtrip(n);
}

} // verus!
