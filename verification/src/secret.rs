//! Secret validation and base32 decoding.
//!
//! A shared secret arrives as text: 16, 26 or 32 characters of the unpadded
//! RFC 4648 base32 alphabet (case-insensitive).  Decoding normalises it to
//! upper case and produces the raw key bytes, five bits per character.

use vstd::prelude::*;
use vstd::string::StrSliceExecFns;
use vstd::string::StringExecFns;
use crate::errors::TotpError;

verus! {

/// A character of the upper-case RFC 4648 base32 alphabet, `A`-`Z` `2`-`7`.
pub open spec fn is_base32_char(c: char) -> bool {
    ('A' <= c && c <= 'Z') || ('2' <= c && c <= '7')
}

/// Upper-cases the 26 lower-case ASCII letters and leaves every other
/// character alone.
pub open spec fn to_upper(c: char) -> char {
    if 'a' <= c && c <= 'z' {
        ((c as u8) - 32) as char
    } else {
        c
    }
}

/// The secret as the decoder sees it: normalised to upper case.
pub open spec fn upper_of(s: Seq<char>) -> Seq<char> {
    s.map_values(|c: char| to_upper(c))
}

/// The three accepted secret lengths: the unpadded base32 encodings of
/// 10-, 16- and 20-byte keys (80-, 128- and 160-bit secrets).
pub open spec fn is_accepted_secret_len(n: nat) -> bool {
    n == 16 || n == 26 || n == 32
}

/// The bytes that unpadded RFC 4648 base32 decoding yields on an input made
/// of alphabet characters only.
pub uninterp spec fn base32_decoded(s: Seq<char>) -> Seq<u8>;

/// Relies on `base32::decode` with `Alphabet::Rfc4648 { padding: false }`:
/// it succeeds exactly when every character of the input is in the
/// upper-case alphabet `A`-`Z` `2`-`7` (lower case, `=` padding and every
/// non-ASCII character are refused by its inverse table), and on success
/// yields five bits per character, `len * 5 / 8` bytes in all.
#[verifier::external_body]
fn base32_decode_unpadded(s: &str) -> (r: Option<Vec<u8>>)
    ensures
        r is Some <==> (forall|i: int| 0 <= i < s@.len() ==> is_base32_char(#[trigger] s@[i])),
        r is Some ==> r->0@ == base32_decoded(s@),
        r is Some ==> r->0@.len() == s@.len() * 5 / 8,
{
    base32::decode(base32::Alphabet::Rfc4648 { padding: false }, s)
}

/// The one-character string holding `to_upper(c)`, for every character that
/// may appear in a valid secret; `None` when even the upper-cased character
/// falls outside the base32 alphabet.
fn upper_base32_str(c: char) -> (r: Option<&'static str>)
    ensures
        r is Some <==> is_base32_char(to_upper(c)),
        r is Some ==> r->0@ =~= seq![to_upper(c)],
{
    proof {
        reveal_strlit("A");
        reveal_strlit("B");
        reveal_strlit("C");
        reveal_strlit("D");
        reveal_strlit("E");
        reveal_strlit("F");
        reveal_strlit("G");
        reveal_strlit("H");
        reveal_strlit("I");
        reveal_strlit("J");
        reveal_strlit("K");
        reveal_strlit("L");
        reveal_strlit("M");
        reveal_strlit("N");
        reveal_strlit("O");
        reveal_strlit("P");
        reveal_strlit("Q");
        reveal_strlit("R");
        reveal_strlit("S");
        reveal_strlit("T");
        reveal_strlit("U");
        reveal_strlit("V");
        reveal_strlit("W");
        reveal_strlit("X");
        reveal_strlit("Y");
        reveal_strlit("Z");
        reveal_strlit("2");
        reveal_strlit("3");
        reveal_strlit("4");
        reveal_strlit("5");
        reveal_strlit("6");
        reveal_strlit("7");
    }
    match c {
        'a' | 'A' => Some("A"),
        'b' | 'B' => Some("B"),
        'c' | 'C' => Some("C"),
        'd' | 'D' => Some("D"),
        'e' | 'E' => Some("E"),
        'f' | 'F' => Some("F"),
        'g' | 'G' => Some("G"),
        'h' | 'H' => Some("H"),
        'i' | 'I' => Some("I"),
        'j' | 'J' => Some("J"),
        'k' | 'K' => Some("K"),
        'l' | 'L' => Some("L"),
        'm' | 'M' => Some("M"),
        'n' | 'N' => Some("N"),
        'o' | 'O' => Some("O"),
        'p' | 'P' => Some("P"),
        'q' | 'Q' => Some("Q"),
        'r' | 'R' => Some("R"),
        's' | 'S' => Some("S"),
        't' | 'T' => Some("T"),
        'u' | 'U' => Some("U"),
        'v' | 'V' => Some("V"),
        'w' | 'W' => Some("W"),
        'x' | 'X' => Some("X"),
        'y' | 'Y' => Some("Y"),
        'z' | 'Z' => Some("Z"),
        '2' => Some("2"),
        '3' => Some("3"),
        '4' => Some("4"),
        '5' => Some("5"),
        '6' => Some("6"),
        '7' => Some("7"),
        _ => None,
    }
}

/// Validates and decodes a base32 secret into raw key bytes.
///
/// The length must be exactly 16, 26 or 32 characters; any other length is
/// `InvalidSecretLength`, and decoding is never attempted.  A secret of
/// accepted length whose upper-cased characters are not all in the base32
/// alphabet is `Base32DecodeError`.  Whatever base32 yields is accepted as
/// the key: there is no secondary check of the decoded byte length.
pub fn decode_secret(secret: &str) -> (r: Result<Vec<u8>, TotpError>)
    ensures
        r is Ok <==> (is_accepted_secret_len(secret@.len()) && (forall|i: int|
            0 <= i < secret@.len() ==> is_base32_char(#[trigger] upper_of(secret@)[i]))),
        r is Ok ==> r->Ok_0@ == base32_decoded(upper_of(secret@))
            && r->Ok_0@.len() == secret@.len() * 5 / 8,
        !is_accepted_secret_len(secret@.len())
            ==> r is Err && r->Err_0 == TotpError::InvalidSecretLength,
        r is Err ==> (r->Err_0 == TotpError::InvalidSecretLength
            || r->Err_0 == TotpError::Base32DecodeError),
        (is_accepted_secret_len(secret@.len()) && r is Err)
            ==> r->Err_0 == TotpError::Base32DecodeError,
{
    let n = secret.unicode_len();
    if n != 16 && n != 26 && n != 32 {
        return Err(TotpError::InvalidSecretLength);
    }
    let mut upper = String::new();
    let mut i: usize = 0;
    while i < n
        invariant
            i <= n,
            n == secret@.len(),
            is_accepted_secret_len(secret@.len()),
            upper@ =~= upper_of(secret@).take(i as int),
            forall|j: int| 0 <= j < i ==> is_base32_char(#[trigger] upper_of(secret@)[j]),
        decreases n - i,
    {
        let c = secret.get_char(i);
        match upper_base32_str(c) {
            Some(u) => {
                upper.append(u);
                proof {
                    assert(upper_of(secret@).take(i + 1) =~= upper_of(secret@).take(
                        i as int,
                    ).push(to_upper(secret@[i as int])));
                }
            },
            None => {
                proof {
                    assert(upper_of(secret@)[i as int] == to_upper(secret@[i as int]));
                }
                return Err(TotpError::Base32DecodeError);
            },
        }
        i = i + 1;
    }
    proof {
        assert(upper@ =~= upper_of(secret@));
    }
    match base32_decode_unpadded(upper.as_str()) {
        Some(bytes) => Ok(bytes),
        None => Err(TotpError::Base32DecodeError),
    }
}

} // verus!
