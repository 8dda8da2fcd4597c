//! Code generation: HMAC-SHA1, dynamic truncation, decimal formatting.
//!
//! Per RFC 4226 the counter is serialised as eight big-endian bytes and
//! authenticated with HMAC-SHA1 under the decoded key; the low four bits of
//! the digest's last byte pick an offset, four bytes from there are read as
//! a big-endian 31-bit integer, and the code is that integer reduced modulo
//! `10^digits`, printed left-zero-padded.

use vstd::prelude::*;
use vstd::arithmetic::div_mod::lemma_div_denominator;
use vstd::string::StringExecFns;
use hmac::Mac;

verus! {

/// `10^e`.
pub open spec fn pow10(e: nat) -> nat
    decreases e,
{
    if e == 0 {
        1
    } else {
        10 * pow10((e - 1) as nat)
    }
}

/// The eight big-endian bytes of the 64-bit counter (RFC 4226 section 5.1).
pub open spec fn be_bytes_u64(x: u64) -> Seq<u8> {
    seq![
        (x >> 56) as u8,
        (x >> 48) as u8,
        (x >> 40) as u8,
        (x >> 32) as u8,
        (x >> 24) as u8,
        (x >> 16) as u8,
        (x >> 8) as u8,
        x as u8,
    ]
}

/// The 20-byte HMAC-SHA1 digest of `msg` under `key`.
pub uninterp spec fn hmac_sha1_of(key: Seq<u8>, msg: Seq<u8>) -> Seq<u8>;

/// The 31-bit integer that RFC 4226 dynamic truncation reads out of a
/// 20-byte digest.
pub open spec fn truncated_31(d: Seq<u8>) -> int
    recommends
        d.len() == 20,
{
    let o = (d[19] & 0x0f) as int;
    (d[o] & 0x7f) * 0x1000000 + d[o + 1] * 0x10000 + d[o + 2] * 0x100 + d[o + 3]
}

/// The one-time value for `key` and `counter`: the truncated digest reduced
/// to `digits` decimal digits.
pub open spec fn hotp_value(key: Seq<u8>, counter: u64, digits: u32) -> int {
    truncated_31(hmac_sha1_of(key, be_bytes_u64(counter))) % (pow10(digits as nat) as int)
}

/// One decimal digit as a character.
pub open spec fn digit_char(d: int) -> char {
    if d == 0 {
        '0'
    } else if d == 1 {
        '1'
    } else if d == 2 {
        '2'
    } else if d == 3 {
        '3'
    } else if d == 4 {
        '4'
    } else if d == 5 {
        '5'
    } else if d == 6 {
        '6'
    } else if d == 7 {
        '7'
    } else if d == 8 {
        '8'
    } else {
        '9'
    }
}

/// The last `k` decimal digits of `n`, left-zero-padded to exactly `k`
/// characters.
pub open spec fn dec_digits(n: int, k: nat) -> Seq<char>
    decreases k,
{
    if k == 0 {
        Seq::empty()
    } else {
        dec_digits(n / 10, (k - 1) as nat).push(digit_char(n % 10))
    }
}

/// The code string that `key` and `counter` determine: `generate_code`
/// returns exactly this, so the code is a pure function of key, counter and
/// digit count.
pub open spec fn totp_code(key: Seq<u8>, counter: u64, digits: u32) -> Seq<char> {
    dec_digits(hotp_value(key, counter, digits), digits as nat)
}

/// Relies on `hmac::Hmac<sha1::Sha1>` through the `Mac` trait
/// (`new_from_slice`, `update`, `finalize`): HMAC-SHA1 accepts a key of any
/// length (`new_from_slice` never fails), depends on key and message alone,
/// and returns SHA-1's fixed 20-byte digest.
#[verifier::external_body]
fn hmac_sha1(key: &[u8], msg: &[u8]) -> (r: Vec<u8>)
    ensures
        r@ == hmac_sha1_of(key@, msg@),
        r@.len() == 20,
{
    let mut mac = <hmac::Hmac<sha1::Sha1> as hmac::KeyInit>::new_from_slice(key).expect(
        "HMAC accepts keys of any length",
    );
    mac.update(msg);
    mac.finalize().into_bytes().to_vec()
}

/// The counter serialised as eight big-endian bytes.
pub fn counter_to_bytes(counter: u64) -> (r: Vec<u8>)
    ensures
        r@ == be_bytes_u64(counter),
{
    let mut v: Vec<u8> = Vec::new();
    v.push(#[verifier::truncate] ((counter >> 56) as u8));
    v.push(#[verifier::truncate] ((counter >> 48) as u8));
    v.push(#[verifier::truncate] ((counter >> 40) as u8));
    v.push(#[verifier::truncate] ((counter >> 32) as u8));
    v.push(#[verifier::truncate] ((counter >> 24) as u8));
    v.push(#[verifier::truncate] ((counter >> 16) as u8));
    v.push(#[verifier::truncate] ((counter >> 8) as u8));
    v.push(#[verifier::truncate] (counter as u8));
    proof {
        assert(v@ =~= be_bytes_u64(counter));
    }
    v
}

/// `10^e` for small exponents, executably.
pub fn pow10_u32(e: u32) -> (r: u32)
    requires
        e <= 9,
    ensures
        r as nat == pow10(e as nat),
        r >= 1,
{
    proof {
        reveal_with_fuel(pow10, 11);
    }
    match e {
        0 => 1,
        1 => 10,
        2 => 100,
        3 => 1000,
        4 => 10000,
        5 => 100000,
        6 => 1000000,
        7 => 10000000,
        8 => 100000000,
        _ => 1000000000,
    }
}

/// RFC 4226 dynamic truncation of a 20-byte digest.
pub fn dynamic_truncate(digest: &Vec<u8>) -> (r: u32)
    requires
        digest@.len() == 20,
    ensures
        r == truncated_31(digest@),
        r < 0x80000000,
{
    let last = digest[19];
    let o = (last & 0x0f) as usize;
    proof {
        assert(last & 0x0f < 16) by (bit_vector);
    }
    let d0 = digest[o];
    let b0 = d0 & 0x7f;
    proof {
        assert(d0 & 0x7f < 0x80) by (bit_vector);
    }
    let b1 = digest[o + 1];
    let b2 = digest[o + 2];
    let b3 = digest[o + 3];
    (b0 as u32) * 0x1000000 + (b1 as u32) * 0x10000 + (b2 as u32) * 0x100 + (b3 as u32)
}

/// One decimal digit as a one-character string.
fn digit_str(d: u32) -> (r: &'static str)
    requires
        d < 10,
    ensures
        r@ =~= seq![digit_char(d as int)],
{
    proof {
        reveal_strlit("0");
        reveal_strlit("1");
        reveal_strlit("2");
        reveal_strlit("3");
        reveal_strlit("4");
        reveal_strlit("5");
        reveal_strlit("6");
        reveal_strlit("7");
        reveal_strlit("8");
        reveal_strlit("9");
    }
    match d {
        0 => "0",
        1 => "1",
        2 => "2",
        3 => "3",
        4 => "4",
        5 => "5",
        6 => "6",
        7 => "7",
        8 => "8",
        _ => "9",
    }
}

/// Formats a value as exactly `digits` decimal characters, left-zero-padded
/// (a value of 42 with six digits prints as `000042`).
pub fn format_code(code: u32, digits: u32) -> (r: String)
    requires
        1 <= digits && digits <= 9,
    ensures
        r@ == dec_digits(code as int, digits as nat),
        r@.len() == digits,
{
    let mut s = String::new();
    let mut i: u32 = 0;
    while i < digits
        invariant
            i <= digits,
            1 <= digits && digits <= 9,
            s@ == dec_digits((code as int) / (pow10((digits - i) as nat) as int), i as nat),
            s@.len() == i,
        decreases digits - i,
    {
        let p = pow10_u32(digits - 1 - i);
        let d = (code / p) % 10;
        s.append(digit_str(d));
        proof {
            let m = (code as int) / (p as int);
            let k = (digits - i) as nat;
            // (code / 10^(k-1)) / 10 == code / 10^k, so the characters
            // written so far are the digits above position k.
            lemma_div_denominator(code as int, p as int, 10);
            assert(pow10(k) == 10 * pow10((k - 1) as nat));
            assert(m / 10 == (code as int) / (pow10(k) as int));
            assert(s@ =~= dec_digits(m / 10, i as nat).push(digit_char(m % 10)));
        }
        i = i + 1;
    }
    proof {
        vstd::arithmetic::div_mod::lemma_div_basics(code as int);
        assert(pow10(0) == 1);
    }
    s
}

/// Computes the one-time code for the decoded key and time-step counter.
///
/// This is a pure function of its arguments: the returned string is exactly
/// `totp_code(key, counter, digits)`, so equal inputs always yield equal
/// codes, `digits` characters long.
pub fn generate_code(key: &Vec<u8>, counter: u64, digits: u32) -> (r: String)
    requires
        1 <= digits && digits <= 9,
    ensures
        r@ == totp_code(key@, counter, digits),
        r@.len() == digits,
{
    let msg = counter_to_bytes(counter);
    let digest = hmac_sha1(key.as_slice(), msg.as_slice());
    let truncated = dynamic_truncate(&digest);
    let modulus = pow10_u32(digits);
    let code = truncated % modulus;
    format_code(code, digits)
}

} // verus!
