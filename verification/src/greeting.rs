//! The one-time handshake greeting.
//!
//! When a client opens a connection it must first send a 9-byte greeting
//! carrying information about the application:
//!
//! ```text
//!  |   0  |   1  |   2  |  3  |         4        |   5   |   6   |    7-8   |
//!  |------+------+------+-----+------------------+-------+-------+----------|
//!  | 0x17 | 0x03 | 0x03 | 0x0 | Protocol version | Major | Minor | Revision |
//! ```
//!
//! `0x17 0x03 0x03` imitates a TLS frame header. Only the protocol version
//! byte is validated; the application version fields are informational.

use vstd::prelude::*;
use vstd::string::StringExecFns;

verus! {

/// Checks that the greeting's protocol version byte (offset 4) is 4.
///
/// Every other byte is ignored: a greeting is accepted exactly when
/// `bytes[4] == 4`.
pub fn validate_protocol(bytes: &[u8]) -> (r: Result<(), &'static str>)
    requires
        bytes@.len() >= 5,
    ensures
        r is Ok <==> bytes@[4] == 4,
        r matches Err(m) ==> m@ == "Invalid protocol version"@,
{
    if bytes[4] != 4 {
        return Err("Invalid protocol version");
    }

    Ok(())
}

/// The character for one decimal digit.
pub open spec fn spec_digit(d: int) -> char {
    if d == 0 {
        '0'
    } else if d == 1 {
        '1'
    } else if d == 2 {
        '2'
    } else if d == 3 {
        '3'
    } else if d == 4 {
        '4'
    } else if d == 5 {
        '5'
    } else if d == 6 {
        '6'
    } else if d == 7 {
        '7'
    } else if d == 8 {
        '8'
    } else {
        '9'
    }
}

/// The usual decimal rendering of a non-negative integer: no sign, no
/// leading zeros except for the number 0 itself.
pub open spec fn spec_decimal(n: int) -> Seq<char>
    decreases n,
{
    if n < 10 {
        seq![spec_digit(n)]
    } else {
        spec_decimal(n / 10) + seq![spec_digit(n % 10)]
    }
}

/// The big-endian revision field at offsets 7-8 of a greeting.
pub open spec fn spec_revision(b: Seq<u8>) -> int {
    (b[7] as int) * 256 + (b[8] as int)
}

/// The version string a greeting carries: `v{major}.{minor}.{revision}`
/// with major at offset 5, minor at offset 6 and the revision at 7-8.
pub open spec fn spec_version(b: Seq<u8>) -> Seq<char> {
    seq!['v'] + spec_decimal(b[5] as int) + seq!['.'] + spec_decimal(b[6] as int) + seq!['.']
        + spec_decimal(spec_revision(b))
}

/// The one-character string for a decimal digit.
fn digit_str(d: u8) -> (r: &'static str)
    requires
        d < 10,
    ensures
        r@ == seq![spec_digit(d as int)],
{
    let s: &'static str = match d {
        0 => "0",
        1 => "1",
        2 => "2",
        3 => "3",
        4 => "4",
        5 => "5",
        6 => "6",
        7 => "7",
        8 => "8",
        _ => "9",
    };
    proof {
        reveal_strlit("0");
        reveal_strlit("1");
        reveal_strlit("2");
        reveal_strlit("3");
        reveal_strlit("4");
        reveal_strlit("5");
        reveal_strlit("6");
        reveal_strlit("7");
        reveal_strlit("8");
        reveal_strlit("9");
        assert(s@ =~= seq![spec_digit(d as int)]);
    }
    s
}

/// Appends the decimal rendering of `n` to `s`.
fn append_decimal(s: &mut String, n: u16)
    ensures
        final(s)@ == old(s)@ + spec_decimal(n as int),
    decreases n,
{
    if n >= 10 {
        append_decimal(s, n / 10);
    }
    let d = digit_str((n % 10) as u8);
    s.append(d);
    proof {
        assert(s@ =~= old(s)@ + spec_decimal(n as int));
    }
}

/// The application version a greeting reports, as `v{major}.{minor}.{revision}`.
pub fn app_version(bytes: &[u8]) -> (s: String)
    requires
        bytes@.len() >= 9,
    ensures
        s@ == spec_version(bytes@),
{
    let revision: u16 = ((bytes[7] as u16) << 8) | (bytes[8] as u16);
    proof {
        crate::packet::lemma_be16_combine(bytes[7] as u16, bytes[8] as u16);
    }

    let mut s = String::from_str("v");
    proof {
        reveal_strlit("v");
        reveal_strlit(".");
    }
    append_decimal(&mut s, bytes[5] as u16);
    s.append(".");
    append_decimal(&mut s, bytes[6] as u16);
    s.append(".");
    append_decimal(&mut s, revision);
    proof {
        assert(s@ =~= spec_version(bytes@));
    }
    s
}

/// The whole greeting check a connection performs after reading the 9
/// greeting bytes: validate the protocol version, and on success report the
/// client's application version for diagnostics.
pub fn check_greeting(bytes: &[u8]) -> (r: Result<String, &'static str>)
    requires
        bytes@.len() >= 9,
    ensures
        r is Ok <==> bytes@[4] == 4,
        r matches Ok(v) ==> v@ == spec_version(bytes@),
        r matches Err(m) ==> m@ == "Invalid greeting packet"@,
{
    match validate_protocol(bytes) {
        Ok(()) => Ok(app_version(bytes)),
        Err(_) => Err("Invalid greeting packet"),
    }
}

} // verus!
