//! The listening port, as read from the `PORT` setting.
use vstd::prelude::*;

verus! {

/// The port used when `PORT` is not set.
pub const DEFAULT_PORT: u16 = 8080;

/// Why a `PORT` setting was refused.
#[derive(Debug, Clone, Copy, PartialEq, Eq, Structural)]
pub enum PortError {
    /// The value is not a decimal number of at most 65535.
    NotANumber,
    /// The value is a number, but zero, which names no port.
    Zero,
}

pub open spec fn is_digit(c: char) -> bool {
    '0' <= c && c <= '9'
}

pub open spec fn digit_value(c: char) -> int {
    c as int - '0' as int
}

pub open spec fn all_digits(s: Seq<char>) -> bool {
    forall|i: int| 0 <= i < s.len() ==> is_digit(#[trigger] s[i])
}

/// The number that a string of decimal digits denotes, most significant first.
pub open spec fn digits_value(s: Seq<char>) -> int
    decreases s.len(),
{
    if s.len() == 0 {
        0
    } else {
        digits_value(s.drop_last()) * 10 + digit_value(s.last())
    }
}

/// The digits of a setting: what follows an optional leading `+`.
pub open spec fn unsigned_part(s: Seq<char>) -> Seq<char> {
    if s.len() > 0 && s[0] == '+' {
        s.drop_first()
    } else {
        s
    }
}

/// The port that a setting denotes: one or more decimal digits, after an
/// optional `+`, whose value is in `1..=65535`.
pub open spec fn port_number(s: Seq<char>) -> Result<u16, PortError> {
    let d = unsigned_part(s);
    if d.len() > 0 && all_digits(d) && digits_value(d) <= u16::MAX {
        if digits_value(d) == 0 {
            Err(PortError::Zero)
        } else {
            Ok(digits_value(d) as u16)
        }
    } else {
        Err(PortError::NotANumber)
    }
}

/// The port selected by the `PORT` setting: `DEFAULT_PORT` when it is unset.
pub open spec fn port_setting(value: Option<Seq<char>>) -> Result<u16, PortError> {
    match value {
        None => Ok(DEFAULT_PORT),
        Some(s) => port_number(s),
    }
}

proof fn lemma_digits_value_nonneg(s: Seq<char>)
    requires
        all_digits(s),
    ensures
        digits_value(s) >= 0,
    decreases s.len(),
{
    if s.len() > 0 {
        lemma_digits_value_nonneg(s.drop_last());
    }
}

/// Reads a port number written in decimal, with an optional leading `+`.
pub fn parse_port(s: &str) -> (r: Result<u16, PortError>)
    ensures
        r == port_number(s@),
{
    let n = s.unicode_len();
    let mut start: usize = 0;
    if n > 0 && s.get_char(0) == '+' {
        start = 1;
    }
    let ghost d = unsigned_part(s@);
    assert(d =~= s@.subrange(start as int, n as int));
    if start == n {
        return Err(PortError::NotANumber);
    }
    // Values above `u16::MAX` are held as `u16::MAX + 1`.
    let mut value: u32 = 0;
    let mut i: usize = start;
    while i < n
        invariant
            start <= i <= n,
            n == s@.len(),
            d == unsigned_part(s@),
            d =~= s@.subrange(start as int, n as int),
            all_digits(d.take(i - start)),
            value == if digits_value(d.take(i - start)) > u16::MAX {
                u16::MAX + 1
            } else {
                digits_value(d.take(i - start))
            },
        decreases n - i,
    {
        let c = s.get_char(i);
        if c < '0' || c > '9' {
            assert(!all_digits(d)) by {
                assert(d[i - start] == c);
            }
            return Err(PortError::NotANumber);
        }
        let ghost prev = d.take(i - start);
        let ghost next = d.take(i + 1 - start);
        assert(next.drop_last() =~= prev);
        assert(next.last() == c);
        assert(all_digits(next)) by {
            assert forall|j: int| 0 <= j < next.len() implies is_digit(#[trigger] next[j]) by {
                if j < prev.len() {
                    assert(next[j] == prev[j]);
                }
            }
        }
        proof {
            lemma_digits_value_nonneg(prev);
        }
        let dv = (c as u32) - ('0' as u32);
        if value <= 65535 {
            value = value * 10 + dv;
            if value > 65535 {
                value = 65536;
            }
        }
        i = i + 1;
    }
    assert(d.take(n - start) =~= d);
    if value > 65535 {
        Err(PortError::NotANumber)
    } else if value == 0 {
        Err(PortError::Zero)
    } else {
        Ok(value as u16)
    }
}

/// A setting that is not a number is refused: one with no digits after the
/// optional `+`, or with any other character among them.
pub proof fn lemma_non_numeric_setting_refused(s: Seq<char>)
    requires
        unsigned_part(s).len() == 0 || exists|i: int|
            0 <= i < unsigned_part(s).len() && !is_digit(#[trigger] unsigned_part(s)[i]),
    ensures
        port_setting(Some(s)) == Err::<u16, PortError>(PortError::NotANumber),
{
}

proof fn lemma_zeros_value(d: Seq<char>)
    requires
        forall|i: int| 0 <= i < d.len() ==> #[trigger] d[i] == '0',
    ensures
        digits_value(d) == 0,
    decreases d.len(),
{
    if d.len() > 0 {
        lemma_zeros_value(d.drop_last());
    }
}

/// A setting whose digits are all zeros ("0", "+0", "000") names no port and
/// is refused.
pub proof fn lemma_zero_setting_refused(s: Seq<char>)
    requires
        unsigned_part(s).len() > 0,
        forall|i: int| 0 <= i < unsigned_part(s).len() ==> #[trigger] unsigned_part(s)[i] == '0',
    ensures
        port_setting(Some(s)) == Err::<u16, PortError>(PortError::Zero),
{
    lemma_zeros_value(unsigned_part(s));
}

/// The port selected by the `PORT` setting, given its value when it is set.
pub fn port_from_setting(value: Option<&str>) -> (r: Result<u16, PortError>)
    ensures
        r == port_setting(
            match value {
                Some(s) => Some(s@),
                None => None,
            },
        ),
{
    match value {
        None => Ok(DEFAULT_PORT),
        Some(s) => parse_port(s),
    }
}

} // verus!
