use vstd::prelude::*;
use crate::codec::{
    base64_url_decode, base64_url_decoded, base64_url_encode, base64_url_encoded, hex_decode,
    hex_decoded, hex_digit_value, is_hex_digit,
};
use crate::crypto::{ed25519_accepts, ed25519_verify};
use crate::error::MessageError;
use crate::text::{
    chars_of, decimal, ends_with, push_decimal, push_str, starts_with, starts_with_str, string_of_chars,
    trim, trim_chars,
};

verus! {

/// Length in bytes of an Ed25519 signature.
pub const SIGN_LEN: usize = 64;

/// Number of hexadecimal digits that close a signed comment and give the
/// length of the encoded signature.
pub const SIGN_LEN_HEX_LEN: usize = 4;

/// The marker `jgs-v1:` that may precede the encoded signature.
pub open spec fn signature_magic() -> Seq<u8> {
    seq![106u8, 103u8, 115u8, 45u8, 118u8, 49u8, 58u8]
}

/// The stem `JavaGuard-Signature-` of a signature marker.
pub open spec fn marker_stem() -> Seq<u8> {
    seq![
        74u8, 97u8, 118u8, 97u8, 71u8, 117u8, 97u8, 114u8, 100u8, 45u8, 83u8, 105u8, 103u8,
        110u8, 97u8, 116u8, 117u8, 114u8, 101u8, 45u8,
    ]
}

fn signature_magic_bytes() -> (v: Vec<u8>)
    ensures
        v@ == signature_magic(),
{
    let v: Vec<u8> = vec![106u8, 103u8, 115u8, 45u8, 118u8, 49u8, 58u8];
    assert(v@ =~= signature_magic());
    v
}

fn marker_stem_bytes() -> (v: Vec<u8>)
    ensures
        v@ == marker_stem(),
{
    let v: Vec<u8> = vec![
        74u8, 97u8, 118u8, 97u8, 71u8, 117u8, 97u8, 114u8, 100u8, 45u8, 83u8, 105u8, 103u8,
        110u8, 97u8, 116u8, 117u8, 114u8, 101u8, 45u8,
    ];
    assert(v@ =~= marker_stem());
    v
}

/// Why the signature could not be read from a JAR comment.
#[derive(Debug, Clone, Copy, PartialEq, Eq, Structural)]
pub enum SignatureError {
    /// The comment is too short to hold a signature.
    NoSignature,
    /// The length trailer is not four lower-case hexadecimal digits.
    InfoInvalid,
    /// The length trailer does not decode to two bytes.
    InfoLengthInvalid,
    /// The encoded or decoded signature has an impossible length.
    LengthInvalid,
    /// A signature marker is present but malformed.
    MarkerInvalid,
    /// The encoded signature is not valid base64.
    SignatureInvalid,
    /// The encoded signature is not the canonical encoding of its bytes.
    NotCanonical,
}

/// The message that each signature error is reported with.
pub open spec fn signature_error_text(e: SignatureError) -> Seq<char> {
    match e {
        SignatureError::NoSignature => "jar has no signature"@,
        SignatureError::InfoInvalid => "jar signature info is invalid"@,
        SignatureError::InfoLengthInvalid => "jar signature info length is invalid"@,
        SignatureError::LengthInvalid => "jar signature length is invalid"@,
        SignatureError::MarkerInvalid => "jar signature marker is invalid"@,
        SignatureError::SignatureInvalid => "jar signature is invalid"@,
        SignatureError::NotCanonical => "jar signature encoding is not canonical"@,
    }
}

impl SignatureError {
    /// The message of this error.
    pub fn message(&self) -> (m: &'static str)
        ensures
            m@ == signature_error_text(*self),
    {
        match self {
            SignatureError::NoSignature => "jar has no signature",
            SignatureError::InfoInvalid => "jar signature info is invalid",
            SignatureError::InfoLengthInvalid => "jar signature info length is invalid",
            SignatureError::LengthInvalid => "jar signature length is invalid",
            SignatureError::MarkerInvalid => "jar signature marker is invalid",
            SignatureError::SignatureInvalid => "jar signature is invalid",
            SignatureError::NotCanonical => "jar signature encoding is not canonical",
        }
    }
}

/// `b` is a decimal digit or a lower-case letter `a` to `f`.
pub open spec fn is_lower_hex_digit(b: u8) -> bool {
    (48 <= b && b <= 57) || (97 <= b && b <= 102)
}

/// Every byte of `s` is a decimal digit or a lower-case letter `a` to `f`.
pub open spec fn all_lower_hex(s: Seq<u8>) -> bool {
    forall|i: int| 0 <= i < s.len() ==> is_lower_hex_digit(#[trigger] s[i])
}

/// The position just after the last byte of `s` that is not ASCII, or 0.
pub open spec fn ascii_tail_start(s: Seq<u8>) -> int
    decreases s.len(),
{
    if s.len() == 0 {
        0
    } else if s.last() >= 128 {
        s.len() as int
    } else {
        ascii_tail_start(s.drop_last())
    }
}

/// `s` contains `w` as a contiguous part.
pub open spec fn contains_window(s: Seq<u8>, w: Seq<u8>) -> bool {
    exists|k: int| 0 <= k && k + w.len() <= s.len() && #[trigger] s.subrange(k, k + w.len()) == w
}

/// The ASCII tail of `prefix` (after its last non-ASCII byte) contains the
/// marker stem `JavaGuard-Signature-`.
pub open spec fn spec_has_malformed_signature_marker(prefix: Seq<u8>) -> bool {
    contains_window(prefix.skip(ascii_tail_start(prefix)), marker_stem())
}

/// The signature that a JAR comment carries, or why it carries none.
///
/// The comment ends with four lower-case hexadecimal digits giving, as a
/// little-endian 16-bit number, the length of the base64 (URL-safe, unpadded)
/// encoded signature just before them.  The encoded signature may be preceded
/// by the marker `jgs-v1:`; without it, a text before it that contains the
/// marker stem in its ASCII tail is refused.
pub open spec fn spec_extract_sign(comment: Seq<u8>) -> Result<Seq<u8>, SignatureError> {
    if comment.len() <= SIGN_LEN_HEX_LEN {
        Err(SignatureError::NoSignature)
    } else {
        let end = comment.len() - SIGN_LEN_HEX_LEN;
        let trailer = comment.subrange(end, comment.len() as int);
        if !all_lower_hex(trailer) {
            Err(SignatureError::InfoInvalid)
        } else {
            let len_bytes = hex_decoded(trailer).unwrap();
            let encoded_len = len_bytes[0] + 256 * len_bytes[1];
            if encoded_len == 0 || encoded_len > end {
                Err(SignatureError::LengthInvalid)
            } else {
                let start = end - encoded_len;
                let prefix = comment.take(start);
                if !ends_with(prefix, signature_magic()) && spec_has_malformed_signature_marker(prefix) {
                    Err(SignatureError::MarkerInvalid)
                } else {
                    spec_signature_from_decoded(
                        comment.subrange(start, end),
                        base64_url_decoded(comment.subrange(start, end)),
                    )
                }
            }
        }
    }
}

/// The outcome for an encoded signature given what base64 decoding gave for it.
pub open spec fn spec_signature_from_decoded(encoded: Seq<u8>, decoded: Option<Seq<u8>>) -> Result<
    Seq<u8>,
    SignatureError,
> {
    match decoded {
        None => Err(SignatureError::SignatureInvalid),
        Some(sig) => if sig.len() != SIGN_LEN {
            Err(SignatureError::LengthInvalid)
        } else {
            spec_signature_if_canonical(encoded, sig, base64_url_encoded(sig))
        },
    }
}

/// The outcome for a decoded signature given its encoding and the encoding
/// that re-encoding it gave.
pub open spec fn spec_signature_if_canonical(encoded: Seq<u8>, signature: Seq<u8>, reencoded: Seq<u8>) -> Result<
    Seq<u8>,
    SignatureError,
> {
    if reencoded != encoded {
        Err(SignatureError::NotCanonical)
    } else {
        Ok(signature)
    }
}

/// The view of a byte result.
pub open spec fn bytes_result(r: Result<Vec<u8>, SignatureError>) -> Result<Seq<u8>, SignatureError> {
    match r {
        Ok(v) => Ok(v@),
        Err(e) => Err(e),
    }
}

/// Whether the byte sequences `a` and `b` are equal.
pub fn bytes_equal(a: &[u8], b: &[u8]) -> (r: bool)
    ensures
        r == (a@ == b@),
{
    if a.len() != b.len() {
        return false;
    }
    let mut i: usize = 0;
    while i < a.len()
        invariant
            a.len() == b.len(),
            i <= a.len(),
            forall|j: int| 0 <= j < i ==> a@[j] == b@[j],
        decreases a.len() - i,
    {
        if a[i] != b[i] {
            assert(a@[i as int] != b@[i as int]);
            return false;
        }
        i = i + 1;
    }
    assert(a@ =~= b@);
    true
}

/// Whether the ASCII tail of `prefix` contains the marker stem
/// `JavaGuard-Signature-`.
pub fn has_malformed_signature_marker(prefix: &[u8]) -> (r: bool)
    ensures
        r == spec_has_malformed_signature_marker(prefix@),
{
    let mut tail_start: usize = prefix.len();
    assert(prefix@.take(prefix.len() as int) =~= prefix@);
    while tail_start > 0 && prefix[tail_start - 1] < 128
        invariant
            tail_start <= prefix.len(),
            ascii_tail_start(prefix@.take(tail_start as int)) == ascii_tail_start(prefix@),
        decreases tail_start,
    {
        assert(prefix@.take(tail_start as int).drop_last() =~= prefix@.take(tail_start - 1));
        tail_start = tail_start - 1;
    }
    proof {
        if tail_start > 0 {
            assert(prefix@.take(tail_start as int).last() == prefix@[tail_start - 1]);
        }
        assert(ascii_tail_start(prefix@) == tail_start);
    }
    let stem = marker_stem_bytes();
    let tail = &prefix[tail_start..prefix.len()];
    assert(tail@ =~= prefix@.skip(tail_start as int));
    if tail.len() < stem.len() {
        return false;
    }
    let last = tail.len() - stem.len();
    let mut k: usize = 0;
    while k <= last
        invariant
            stem@ == marker_stem(),
            last + stem.len() == tail.len(),
            tail@ == prefix@.skip(ascii_tail_start(prefix@)),
            forall|j: int| 0 <= j < k ==> #[trigger] tail@.subrange(j, j + stem@.len()) != stem@,
        decreases last + 1 - k,
    {
        let window = &tail[k..k + stem.len()];
        if bytes_equal(window, stem.as_slice()) {
            assert(tail@.subrange(k as int, k + stem@.len()) == window@);
            return true;
        }
        assert(tail@.subrange(k as int, k + stem@.len()) == window@);
        k = k + 1;
    }
    proof {
        assert forall|j: int| 0 <= j && j + marker_stem().len() <= tail@.len() implies
            #[trigger] tail@.subrange(j, j + marker_stem().len()) != marker_stem() by {
            assert(j < k);
        }
    }
    false
}

/// Whether `s` ends with `suffix`.
pub fn bytes_end_with(s: &[u8], suffix: &[u8]) -> (r: bool)
    ensures
        r == ends_with(s@, suffix@),
{
    if suffix.len() > s.len() {
        return false;
    }
    let tail = &s[s.len() - suffix.len()..s.len()];
    assert(tail@ =~= s@.skip(s@.len() - suffix@.len()));
    bytes_equal(tail, suffix)
}

/// Whether `b` is a decimal digit or a lower-case letter `a` to `f`.
fn is_lower_hex_digit_byte(b: u8) -> (r: bool)
    ensures
        r == is_lower_hex_digit(b),
{
    (48 <= b && b <= 57) || (97 <= b && b <= 102)
}

/// Accepts `signature` when re-encoding it gave back `encoded` exactly.
pub fn signature_if_canonical(encoded: &[u8], signature: Vec<u8>, reencoded: &[u8]) -> (r: Result<
    Vec<u8>,
    SignatureError,
>)
    ensures
        bytes_result(r) == spec_signature_if_canonical(encoded@, signature@, reencoded@),
{
    if !bytes_equal(reencoded, encoded) {
        return Err(SignatureError::NotCanonical);
    }
    Ok(signature)
}

/// The outcome for the encoded signature `encoded` given what base64
/// decoding gave for it: the decoded bytes must be a whole signature whose
/// canonical encoding is `encoded`.
pub fn signature_from_decoded(encoded: &[u8], decoded: Option<Vec<u8>>) -> (r: Result<
    Vec<u8>,
    SignatureError,
>)
    ensures
        bytes_result(r) == spec_signature_from_decoded(
            encoded@,
            match decoded {
                Some(v) => Some(v@),
                None => None,
            },
        ),
{
    let signature = match decoded {
        Some(v) => v,
        None => return Err(SignatureError::SignatureInvalid),
    };
    if signature.len() != SIGN_LEN {
        return Err(SignatureError::LengthInvalid);
    }
    let reencoded = base64_url_encode(signature.as_slice());
    signature_if_canonical(encoded, signature, reencoded.as_slice())
}

/// The signature that a JAR comment carries, as `spec_extract_sign` says.
pub fn parse_signature_comment(comment: &[u8]) -> (r: Result<Vec<u8>, SignatureError>)
    ensures
        bytes_result(r) == spec_extract_sign(comment@),
{
    if comment.len() <= SIGN_LEN_HEX_LEN {
        return Err(SignatureError::NoSignature);
    }
    let encoded_end = comment.len() - SIGN_LEN_HEX_LEN;
    let trailer = &comment[encoded_end..comment.len()];
    let mut i: usize = 0;
    while i < trailer.len()
        invariant
            i <= trailer.len(),
            encoded_end + SIGN_LEN_HEX_LEN == comment.len(),
            comment.len() > SIGN_LEN_HEX_LEN,
            trailer@ == comment@.subrange(encoded_end as int, comment@.len() as int),
            forall|j: int| 0 <= j < i ==> is_lower_hex_digit(#[trigger] trailer@[j]),
        decreases trailer.len() - i,
    {
        if !is_lower_hex_digit_byte(trailer[i]) {
            assert(!is_lower_hex_digit(trailer@[i as int]));
            assert(!all_lower_hex(trailer@));
            return Err(SignatureError::InfoInvalid);
        }
        i = i + 1;
    }
    assert(trailer@ == comment@.subrange(encoded_end as int, comment@.len() as int));
    assert forall|j: int| 0 <= j < trailer@.len() implies is_hex_digit(#[trigger] trailer@[j]) by {
        assert(is_lower_hex_digit(trailer@[j]));
    }
    let sign_len_bytes = match hex_decode(trailer) {
        Some(v) => v,
        None => return Err(SignatureError::InfoInvalid),
    };
    if sign_len_bytes.len() != 2 {
        return Err(SignatureError::InfoLengthInvalid);
    }
    let encoded_len: usize = sign_len_bytes[0] as usize + 256 * (sign_len_bytes[1] as usize);
    if encoded_len == 0 {
        return Err(SignatureError::LengthInvalid);
    }
    if encoded_len > encoded_end {
        return Err(SignatureError::LengthInvalid);
    }
    let encoded_start = encoded_end - encoded_len;
    let encoded = &comment[encoded_start..encoded_end];
    let marker_prefix = &comment[0..encoded_start];
    assert(marker_prefix@ =~= comment@.take(encoded_start as int));
    let magic = signature_magic_bytes();
    let marked = bytes_end_with(marker_prefix, magic.as_slice());
    if !marked && has_malformed_signature_marker(marker_prefix) {
        return Err(SignatureError::MarkerInvalid);
    }
    signature_from_decoded(encoded, base64_url_decode(encoded))
}

/// The signature that a JAR comment carries, or the message that says why it
/// carries none.
pub fn extract_sign_from_comment(comment: &[u8]) -> (r: Result<Vec<u8>, &'static str>)
    ensures
        match r {
            Ok(v) => spec_extract_sign(comment@) == Ok::<Seq<u8>, SignatureError>(v@),
            Err(m) => spec_extract_sign(comment@) is Err && m@ == signature_error_text(
                spec_extract_sign(comment@)->Err_0,
            ),
        },
{
    match parse_signature_comment(comment) {
        Ok(v) => Ok(v),
        Err(e) => Err(e.message()),
    }
}

/// The manifest entry that names the main class.
pub const MAIN_CLASS_PREFIX: &'static str = "Main-Class:";

/// The lines of `s` cut at each line feed, with the text after the last one
/// as the last line: the completed lines and the line in progress.
pub open spec fn line_scan(s: Seq<char>) -> (Seq<Seq<char>>, Seq<char>)
    decreases s.len(),
{
    if s.len() == 0 {
        (seq![], seq![])
    } else {
        let (done, cur) = line_scan(s.drop_last());
        if s.last() == '\n' {
            (done.push(cur), seq![])
        } else {
            (done, cur.push(s.last()))
        }
    }
}

/// The lines of `s` cut at each line feed.
pub open spec fn manifest_lines(s: Seq<char>) -> Seq<Seq<char>> {
    line_scan(s).0.push(line_scan(s).1)
}

/// The main class that `line` names, if it is a main-class entry.
pub open spec fn main_class_of_line(line: Seq<char>) -> Option<Seq<char>> {
    if starts_with(line, MAIN_CLASS_PREFIX@) {
        Some(trim(line.skip(MAIN_CLASS_PREFIX@.len() as int)))
    } else {
        None
    }
}

/// The main class named by the first main-class entry among `lines`.
pub open spec fn first_main_class(lines: Seq<Seq<char>>) -> Option<Seq<char>>
    decreases lines.len(),
{
    if lines.len() == 0 {
        None
    } else {
        match main_class_of_line(lines[0]) {
            Some(c) => Some(c),
            None => first_main_class(lines.drop_first()),
        }
    }
}

/// The main class that a manifest names: the rest of the first line that
/// starts with `Main-Class:`, without surrounding white space.
pub open spec fn manifest_main_class(manifest: Seq<char>) -> Option<Seq<char>> {
    first_main_class(manifest_lines(manifest))
}

proof fn lemma_first_main_class_push(lines: Seq<Seq<char>>, line: Seq<char>)
    ensures
        first_main_class(lines.push(line)) == match first_main_class(lines) {
            Some(c) => Some(c),
            None => main_class_of_line(line),
        },
    decreases lines.len(),
{
    if lines.len() == 0 {
        assert(lines.push(line).drop_first() =~= Seq::<Seq<char>>::empty());
    } else {
        assert(lines.push(line).drop_first() =~= lines.drop_first().push(line));
        lemma_first_main_class_push(lines.drop_first(), line);
    }
}

/// The main class of `line`, as `main_class_of_line` says.
fn main_class_in_line(line: &[char]) -> (r: Option<String>)
    ensures
        match r {
            Some(c) => main_class_of_line(line@) == Some(c@),
            None => main_class_of_line(line@) is None,
        },
{
    if !starts_with_str(line, MAIN_CLASS_PREFIX) {
        return None;
    }
    let n = chars_of(MAIN_CLASS_PREFIX).len();
    let rest = &line[n..line.len()];
    assert(rest@ =~= line@.skip(MAIN_CLASS_PREFIX@.len() as int));
    let t = trim_chars(rest);
    Some(string_of_chars(t.as_slice()))
}

/// The main class that `manifest` names, as `manifest_main_class` says.
pub fn find_main_class(manifest: &str) -> (r: Option<String>)
    ensures
        match r {
            Some(c) => manifest_main_class(manifest@) == Some(c@),
            None => manifest_main_class(manifest@) is None,
        },
{
    let text = chars_of(manifest);
    let mut found: Option<String> = None;
    let mut cur: Vec<char> = Vec::new();
    let mut i: usize = 0;
    while i < text.len()
        invariant
            i <= text.len(),
            line_scan(text@.take(i as int)).1 == cur@,
            match found {
                Some(c) => first_main_class(line_scan(text@.take(i as int)).0) == Some(c@),
                None => first_main_class(line_scan(text@.take(i as int)).0) is None,
            },
        decreases text.len() - i,
    {
        let ghost before = text@.take(i as int);
        assert(text@.take(i + 1).drop_last() =~= before);
        let c = text[i];
        if c == '\n' {
            proof {
                lemma_first_main_class_push(line_scan(before).0, cur@);
            }
            if found.is_none() {
                found = main_class_in_line(cur.as_slice());
            }
            cur = Vec::new();
        } else {
            cur.push(c);
        }
        i = i + 1;
    }
    assert(text@.take(text.len() as int) =~= manifest@);
    proof {
        lemma_first_main_class_push(line_scan(manifest@).0, cur@);
    }
    if found.is_none() {
        found = main_class_in_line(cur.as_slice());
    }
    found
}

/// The lower-case hexadecimal digit for `d` (below 16).
pub open spec fn lower_hex_char(d: int) -> u8 {
    if d < 10 {
        (48 + d) as u8
    } else {
        (87 + d) as u8
    }
}

/// The four lower-case hexadecimal digits of the little-endian 16-bit
/// number `n`, each byte with its more significant digit first.
pub open spec fn hex_le16(n: int) -> Seq<u8> {
    seq![
        lower_hex_char((n % 256) / 16),
        lower_hex_char((n % 256) % 16),
        lower_hex_char((n / 256) / 16),
        lower_hex_char((n / 256) % 16),
    ]
}

/// A comment as the signer writes it: the original comment, the marker
/// `jgs-v1:` when `marked` (comments signed before the marker existed lack
/// it), the encoded signature and its length in hexadecimal.
pub open spec fn signed_comment(prefix: Seq<u8>, encoded: Seq<u8>, marked: bool) -> Seq<u8> {
    prefix + (if marked {
        signature_magic()
    } else {
        seq![]
    }) + encoded + hex_le16(encoded.len() as int)
}

/// Reading a comment gives back the signature that the signer wrote into it,
/// whatever the original comment before it: a whole signature, encoded by
/// the base64 encoder (whose output decodes back to it) with a length that
/// fits the trailer.  A comment written without the marker is read the same
/// way, unless its original comment has the marker stem in its ASCII tail
/// and does not end with the marker.
pub proof fn lemma_signed_comment_roundtrip(prefix: Seq<u8>, signature: Seq<u8>, marked: bool)
    requires
        signature.len() == SIGN_LEN,
        base64_url_decoded(base64_url_encoded(signature)) == Some(signature),
        0 < base64_url_encoded(signature).len() < 0x10000,
        marked || ends_with(prefix, signature_magic()) || !spec_has_malformed_signature_marker(prefix),
    ensures
        spec_extract_sign(signed_comment(prefix, base64_url_encoded(signature), marked)) == Ok::<
            Seq<u8>,
            SignatureError,
        >(signature),
{
    let enc = base64_url_encoded(signature);
    let c = signed_comment(prefix, enc, marked);
    let head = prefix + (if marked {
        signature_magic()
    } else {
        seq![]
    });
    let e = enc.len() as int;
    let end = c.len() - SIGN_LEN_HEX_LEN;
    let trailer = c.subrange(end, c.len() as int);
    assert(trailer =~= hex_le16(e));
    assert(all_lower_hex(trailer));
    let lo = e % 256;
    let hi = e / 256;
    assert(hex_decoded(trailer) is Some);
    let bytes = hex_decoded(trailer).unwrap();
    assert(bytes[0] == lo) by {
        assert(hex_digit_value(trailer[0]) == lo / 16);
        assert(hex_digit_value(trailer[1]) == lo % 16);
    }
    assert(bytes[1] == hi) by {
        assert(hex_digit_value(trailer[2]) == hi / 16);
        assert(hex_digit_value(trailer[3]) == hi % 16);
    }
    assert(bytes[0] + 256 * bytes[1] == e);
    let start = end - e;
    assert(c.take(start) =~= head);
    if marked {
        assert(ends_with(head, signature_magic())) by {
            assert(head.skip(head.len() - signature_magic().len()) =~= signature_magic());
        }
    } else {
        assert(head =~= prefix);
    }
    assert(c.subrange(start, end) =~= enc);
}

/// A JAR to launch: where it is, its main class, its signature and how much
/// of the file the signature covers.
#[derive(Debug)]
pub struct JarInfo {
    path: String,
    signature: Vec<u8>,
    jar_data_end_index: usize,
    main_class: String,
}

/// The content of a [`JarInfo`].
#[verifier::ext_equal]
pub struct JarInfoView {
    pub path: Seq<char>,
    pub signature: Seq<u8>,
    pub data_end: nat,
    pub main_class: Seq<char>,
}

impl View for JarInfo {
    type V = JarInfoView;

    closed spec fn view(&self) -> JarInfoView {
        JarInfoView {
            path: self.path@,
            signature: self.signature@,
            data_end: self.jar_data_end_index as nat,
            main_class: self.main_class@,
        }
    }
}

/// Why a JAR cannot be launched.
#[derive(Debug, Clone, Copy, PartialEq, Eq, Structural)]
pub enum JarError {
    /// The file is longer than the address space.
    TooLarge,
    /// The manifest names no main class.
    NoMainClass,
    /// The comment carries no valid signature.
    Signature(SignatureError),
    /// The comment is longer than the file allows.
    CommentLengthInvalid,
}

/// The message that each JAR error is reported with.
pub open spec fn jar_error_text(e: JarError) -> Seq<char> {
    match e {
        JarError::TooLarge => "The jar file is too large, exceeding "@ + decimal(usize::MAX as nat),
        JarError::NoMainClass => "not found Main Class in jar"@,
        JarError::Signature(s) => "cannot extract jar signature: \""@ + signature_error_text(s) + "\""@,
        JarError::CommentLengthInvalid => "jar comment length is invalid"@,
    }
}

impl JarError {
    /// The message of this error.
    pub fn message(&self) -> (m: MessageError)
        ensures
            m.msg@ == jar_error_text(*self),
    {
        let mut s = String::new();
        match self {
            JarError::TooLarge => {
                push_str(&mut s, "The jar file is too large, exceeding ");
                push_decimal(&mut s, usize::MAX as u64);
            },
            JarError::NoMainClass => push_str(&mut s, "not found Main Class in jar"),
            JarError::Signature(e) => {
                push_str(&mut s, "cannot extract jar signature: \"");
                push_str(&mut s, e.message());
                push_str(&mut s, "\"");
            },
            JarError::CommentLengthInvalid => push_str(&mut s, "jar comment length is invalid"),
        }
        MessageError::new_with(s)
    }
}

/// What reading a JAR gives, from its path, its length in bytes, the text of
/// its manifest and its archive comment.
pub open spec fn spec_jar_parse(path: Seq<char>, file_len: nat, manifest: Seq<char>, comment: Seq<u8>) -> Result<
    JarInfoView,
    JarError,
> {
    if file_len > usize::MAX {
        Err(JarError::TooLarge)
    } else {
        match manifest_main_class(manifest) {
            None => Err(JarError::NoMainClass),
            Some(main_class) => match spec_extract_sign(comment) {
                Err(e) => Err(JarError::Signature(e)),
                Ok(signature) => if file_len < comment.len() + 2 {
                    Err(JarError::CommentLengthInvalid)
                } else {
                    Ok(
                        JarInfoView {
                            path,
                            signature,
                            data_end: (file_len - (comment.len() + 2)) as nat,
                            main_class,
                        },
                    )
                },
            },
        }
    }
}

impl JarInfo {
    /// Reads the JAR at `path` from its length in bytes `file_len`, the text
    /// of its manifest and its archive comment.  The signed data ends where
    /// the comment and its two-byte length field begin.
    pub fn parse(path: &str, file_len: u64, manifest: &str, comment: &[u8]) -> (r: Result<JarInfo, JarError>)
        requires
            comment@.len() + 2 <= usize::MAX,
        ensures
            match r {
                Ok(j) => spec_jar_parse(path@, file_len as nat, manifest@, comment@) == Ok::<
                    JarInfoView,
                    JarError,
                >(j@),
                Err(e) => spec_jar_parse(path@, file_len as nat, manifest@, comment@) == Err::<
                    JarInfoView,
                    JarError,
                >(e),
            },
    {
        if file_len > usize::MAX as u64 {
            return Err(JarError::TooLarge);
        }
        let main_class = match find_main_class(manifest) {
            Some(c) => c,
            None => return Err(JarError::NoMainClass),
        };
        let signature = match parse_signature_comment(comment) {
            Ok(s) => s,
            Err(e) => return Err(JarError::Signature(e)),
        };
        let len = file_len as usize;
        if len < comment.len() + 2 {
            return Err(JarError::CommentLengthInvalid);
        }
        Ok(
            JarInfo {
                path: path.to_owned(),
                signature,
                jar_data_end_index: len - (comment.len() + 2),
                main_class,
            },
        )
    }

    /// The path of the JAR.
    pub fn path(&self) -> (p: &String)
        ensures
            p@ == self@.path,
    {
        &self.path
    }

    /// The signature of the JAR.
    pub fn signature(&self) -> (s: &Vec<u8>)
        ensures
            s@ == self@.signature,
    {
        &self.signature
    }

    /// The main class that the manifest names.
    pub fn main_class(&self) -> (c: &String)
        ensures
            c@ == self@.main_class,
    {
        &self.main_class
    }

    /// Whether the signature is a valid Ed25519 signature, under
    /// `public_key`, of the signed part of `content`, the bytes of the JAR file.
    pub fn verify(&self, content: &[u8], public_key: &[u8]) -> (r: bool)
        requires
            self@.data_end <= content@.len(),
        ensures
            r == ed25519_accepts(public_key@, content@.take(self@.data_end as int), self@.signature),
    {
        let signed = &content[0..self.jar_data_end_index];
        assert(signed@ =~= content@.take(self@.data_end as int));
        ed25519_verify(public_key, signed, self.signature.as_slice())
    }

    /// The number of leading bytes of the file that the signature covers.
    pub fn data_end_index(&self) -> (n: usize)
        ensures
            n == self@.data_end,
    {
        self.jar_data_end_index
    }
}

} // verus!
