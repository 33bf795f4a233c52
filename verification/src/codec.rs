use vstd::prelude::*;
use base64::Engine;

verus! {

/// `b` is an ASCII hexadecimal digit of either case.
pub open spec fn is_hex_digit(b: u8) -> bool {
    (48 <= b && b <= 57) || (65 <= b && b <= 70) || (97 <= b && b <= 102)
}

/// The value of the hexadecimal digit `b`.
pub open spec fn hex_digit_value(b: u8) -> int {
    if 48 <= b && b <= 57 {
        b - 48
    } else if 65 <= b && b <= 70 {
        b - 65 + 10
    } else {
        b - 97 + 10
    }
}

/// The bytes that the hexadecimal text `s` stands for, each byte written as
/// two digits, the more significant first; `None` when `s` has an odd length
/// or holds a character that is no hexadecimal digit.
pub open spec fn hex_decoded(s: Seq<u8>) -> Option<Seq<u8>> {
    if s.len() % 2 == 0 && forall|i: int| 0 <= i < s.len() ==> is_hex_digit(#[trigger] s[i]) {
        Some(Seq::new((s.len() / 2) as nat, |i: int| (hex_digit_value(s[2 * i]) * 16 + hex_digit_value(s[2 * i + 1])) as u8))
    } else {
        None
    }
}

/// The length of the unpadded base64 text of `n` bytes.
pub open spec fn base64_unpadded_len(n: nat) -> nat {
    (n / 3) * 4 + if n % 3 == 0 { 0nat } else if n % 3 == 1 { 2nat } else { 3nat }
}

/// The bytes that `base64::prelude::BASE64_URL_SAFE_NO_PAD.decode` gives back
/// for the text `text`, or `None` where it reports an error.
pub uninterp spec fn base64_url_decoded(text: Seq<u8>) -> Option<Seq<u8>>;

/// The text that `base64::prelude::BASE64_URL_SAFE_NO_PAD.encode` gives for
/// `data`, as bytes.
pub uninterp spec fn base64_url_encoded(data: Seq<u8>) -> Seq<u8>;

/// Calls `hex::decode`.  Claimed: it succeeds exactly when the text has an
/// even length and only hexadecimal digits of either case, and then gives the
/// bytes that each pair of digits stands for.
#[verifier::external_body]
pub(crate) fn hex_decode(text: &[u8]) -> (r: Option<Vec<u8>>)
    ensures
        match r {
            Some(v) => hex_decoded(text@) == Some(v@),
            None => hex_decoded(text@) is None,
        },
{
    hex::decode(text).ok()
}

/// Calls `BASE64_URL_SAFE_NO_PAD.decode` of the `base64` crate (URL-safe
/// alphabet, no padding, non-canonical trailing bits rejected).  Claimed: its
/// result is `base64_url_decoded` of the text; nothing more is stated of it.
#[verifier::external_body]
pub(crate) fn base64_url_decode(text: &[u8]) -> (r: Option<Vec<u8>>)
    ensures
        match r {
            Some(v) => base64_url_decoded(text@) == Some(v@),
            None => base64_url_decoded(text@) is None,
        },
{
    base64::prelude::BASE64_URL_SAFE_NO_PAD.decode(text).ok()
}

/// Calls `BASE64_URL_SAFE_NO_PAD.encode` of the `base64` crate.  Claimed: its
/// result is `base64_url_encoded` of the data, has the unpadded base64 length
/// that `base64::encoded_len` gives, and decodes back to the data.  The call
/// panics when that length overflows `usize`, which the bound excludes.
#[verifier::external_body]
pub(crate) fn base64_url_encode(data: &[u8]) -> (r: Vec<u8>)
    requires
        data@.len() <= usize::MAX / 2,
    ensures
        r@ == base64_url_encoded(data@),
        r@.len() == base64_unpadded_len(data@.len()),
        base64_url_decoded(r@) == Some(data@),
{
    base64::prelude::BASE64_URL_SAFE_NO_PAD.encode(data).into_bytes()
}

} // verus!
