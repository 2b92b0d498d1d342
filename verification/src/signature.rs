//! Signature verification of inbound webhook deliveries.
//!
//! A delivery carries a header of the form `sha256=<hex>`; the hex text is the
//! HMAC-SHA256 tag of the raw body under the shared secret. Everything here
//! fails closed: a delivery is accepted only when the tag matches.

use hmac::Mac;
use vstd::prelude::*;

verus! {

/// The HMAC-SHA256 tag of `message` under `key`, as computed by the `hmac` and
/// `sha2` crates. Nothing is assumed of it beyond being a function of its
/// arguments.
pub uninterp spec fn hmac_sha256(key: Seq<u8>, message: Seq<u8>) -> Seq<u8>;

/// The value of one hexadecimal digit, in either case.
pub open spec fn hex_digit(c: u8) -> Option<int> {
    if 0x30 <= c <= 0x39 {
        Some(c - 0x30)
    } else if 0x41 <= c <= 0x46 {
        Some(c - 0x41 + 10)
    } else if 0x61 <= c <= 0x66 {
        Some(c - 0x61 + 10)
    } else {
        None
    }
}

/// Whether `text` is an even number of hexadecimal digits.
pub open spec fn is_hex(text: Seq<u8>) -> bool {
    text.len() % 2 == 0 && forall|i: int| 0 <= i < text.len() ==> hex_digit(#[trigger] text[i]) is Some
}

/// The bytes that a hexadecimal text stands for: two digits per byte, the high
/// digit first. `None` when the text is of odd length or holds another character.
pub open spec fn hex_decoded(text: Seq<u8>) -> Option<Seq<u8>> {
    if is_hex(text) {
        Some(
            Seq::new(
                text.len() / 2,
                |i: int| (hex_digit(text[2 * i]).unwrap() * 16 + hex_digit(text[2 * i + 1]).unwrap()) as u8,
            ),
        )
    } else {
        None
    }
}

/// The bytes of `sha256=`, which open every signature header.
pub open spec fn scheme_prefix() -> Seq<u8> {
    seq![0x73u8, 0x68u8, 0x61u8, 0x32u8, 0x35u8, 0x36u8, 0x3du8]
}

/// Whether a header byte may stand in a textual header value: printable ASCII
/// or a tab.
pub open spec fn visible_byte(b: u8) -> bool {
    (32 <= b < 127) || b == 9
}

/// The text of a header value: the bytes themselves when all of them are
/// visible, the empty text otherwise.
pub open spec fn header_text(raw: Seq<u8>) -> Seq<u8> {
    if forall|i: int| 0 <= i < raw.len() ==> visible_byte(#[trigger] raw[i]) {
        raw
    } else {
        Seq::empty()
    }
}

/// Whether `text` begins with `prefix`.
pub open spec fn has_prefix(text: Seq<u8>, prefix: Seq<u8>) -> bool {
    prefix.len() <= text.len() && text.subrange(0, prefix.len() as int) == prefix
}

/// Whether `provided_signature`, a hexadecimal text, is the tag of `raw_body`
/// under `secret`.
pub open spec fn signature_valid(secret: Seq<u8>, raw_body: Seq<u8>, provided_signature: Seq<u8>) -> bool {
    hex_decoded(provided_signature) == Some(hmac_sha256(secret, raw_body))
}

/// Why a delivery was not authenticated.
#[derive(Clone, Copy, Debug, PartialEq, Eq, Structural)]
pub enum SignatureError {
    /// The delivery has no signature header.
    MissingHeader,
    /// The header does not begin with `sha256=`.
    InvalidFormat,
    /// What follows `sha256=` is not hexadecimal text.
    InvalidHex,
    /// The tag is not the one of this body under the secret.
    Mismatch,
}

impl SignatureError {
    /// The HTTP status that answers the delivery.
    pub open spec fn spec_status(self) -> u16 {
        match self {
            SignatureError::MissingHeader => 401,
            SignatureError::InvalidFormat => 400,
            SignatureError::InvalidHex => 400,
            SignatureError::Mismatch => 401,
        }
    }

    /// The message put into the error body.
    pub open spec fn spec_message(self) -> Seq<char> {
        match self {
            SignatureError::MissingHeader => "missing X-Hub-Signature-256 header"@,
            SignatureError::InvalidFormat => "invalid signature format"@,
            SignatureError::InvalidHex => "invalid signature hex"@,
            SignatureError::Mismatch => "invalid webhook signature"@,
        }
    }

    /// The HTTP status that answers the delivery: 401 where the signature is
    /// missing or wrong, 400 where the header is malformed.
    pub fn status(&self) -> (code: u16)
        ensures
            code == self.spec_status(),
    {
        match self {
            SignatureError::MissingHeader => 401,
            SignatureError::InvalidFormat => 400,
            SignatureError::InvalidHex => 400,
            SignatureError::Mismatch => 401,
        }
    }

    /// The message put into the error body.
    pub fn message(&self) -> (text: String)
        ensures
            text@ == self.spec_message(),
    {
        match self {
            SignatureError::MissingHeader => String::from_str("missing X-Hub-Signature-256 header"),
            SignatureError::InvalidFormat => String::from_str("invalid signature format"),
            SignatureError::InvalidHex => String::from_str("invalid signature hex"),
            SignatureError::Mismatch => String::from_str("invalid webhook signature"),
        }
    }
}

/// What the signature header yields before any key is consulted: the tag it
/// carries, or the reason it carries none.
pub open spec fn header_tag(header: Option<Seq<u8>>) -> Result<Seq<u8>, SignatureError> {
    match header {
        None => Err(SignatureError::MissingHeader),
        Some(raw) => {
            let text = header_text(raw);
            if !has_prefix(text, scheme_prefix()) {
                Err(SignatureError::InvalidFormat)
            } else {
                match hex_decoded(text.subrange(scheme_prefix().len() as int, text.len() as int)) {
                    None => Err(SignatureError::InvalidHex),
                    Some(tag) => Ok(tag),
                }
            }
        },
    }
}

/// The outcome of authenticating a delivery.
pub open spec fn authenticated(secret: Seq<u8>, raw_body: Seq<u8>, header: Option<Seq<u8>>) -> Result<
    (),
    SignatureError,
> {
    match header_tag(header) {
        Err(e) => Err(e),
        Ok(tag) => if tag == hmac_sha256(secret, raw_body) {
            Ok(())
        } else {
            Err(SignatureError::Mismatch)
        },
    }
}

/// Calls `hex::decode`. The crate accepts exactly the texts of even length
/// made of the digits `0-9`, `a-f` and `A-F`, and joins each pair of digits
/// into one byte, the high digit first; any other text is an error, which is
/// returned here as `None`.
#[verifier::external_body]
fn hex_decode(text: &[u8]) -> (decoded: Option<Vec<u8>>)
    ensures
        match decoded {
            Some(bytes) => hex_decoded(text@) == Some(bytes@),
            None => hex_decoded(text@) is None,
        },
{
    hex::decode(text).ok()
}

/// Builds an HMAC-SHA256 instance over `key` with `Hmac::new_from_slice`, feeds
/// it `message` with `Mac::update` and checks `tag` with `Mac::verify_slice`,
/// which compares in constant time and accepts exactly the tag of the message.
/// The key may be of any length: the constructor never refuses one.
#[verifier::external_body]
fn mac_matches(key: &[u8], message: &[u8], tag: &[u8]) -> (ok: bool)
    ensures
        ok == (tag@ == hmac_sha256(key@, message@)),
{
    match hmac::Hmac::<sha2::Sha256>::new_from_slice(key) {
        Ok(mut mac) => {
            mac.update(message);
            mac.verify_slice(tag).is_ok()
        },
        Err(_) => false,
    }
}

/// Whether every byte of `raw` may stand in a textual header value.
fn all_visible(raw: &[u8]) -> (ok: bool)
    ensures
        ok == (forall|i: int| 0 <= i < raw@.len() ==> visible_byte(#[trigger] raw@[i])),
{
    let mut i: usize = 0;
    while i < raw.len()
        invariant
            i <= raw@.len(),
            forall|j: int| 0 <= j < i ==> visible_byte(#[trigger] raw@[j]),
        decreases raw@.len() - i,
    {
        let b: u8 = raw[i];
        if !((32 <= b && b < 127) || b == 9) {
            return false;
        }
        i += 1;
    }
    true
}

/// Whether `text` begins with `sha256=`.
fn has_scheme_prefix(text: &[u8]) -> (ok: bool)
    ensures
        ok == has_prefix(text@, scheme_prefix()),
{
    if text.len() < 7 {
        return false;
    }
    let ok = text[0] == 0x73 && text[1] == 0x68 && text[2] == 0x61 && text[3] == 0x32 && text[4] == 0x35
        && text[5] == 0x36 && text[6] == 0x3d;
    proof {
        let head = text@.subrange(0, 7);
        if ok {
            assert(head =~= scheme_prefix());
        } else {
            assert(head[0] == text@[0] && head[1] == text@[1] && head[2] == text@[2] && head[3] == text@[3]
                && head[4] == text@[4] && head[5] == text@[5] && head[6] == text@[6]);
        }
    }
    ok
}

/// Reads the tag out of a signature header. The header is first taken as text
/// (a value with a byte that is not visible counts as empty), must begin with
/// `sha256=`, and must continue with hexadecimal text.
pub fn parse_signature_header(header: Option<&[u8]>) -> (r: Result<Vec<u8>, SignatureError>)
    ensures
        match r {
            Ok(tag) => header_tag(header_view(header)) == Ok::<Seq<u8>, SignatureError>(tag@),
            Err(e) => header_tag(header_view(header)) == Err::<Seq<u8>, SignatureError>(e),
        },
{
    let raw: &[u8] = match header {
        None => {
            return Err(SignatureError::MissingHeader);
        },
        Some(raw) => raw,
    };
    if !all_visible(raw) {
        assert(!has_prefix(Seq::<u8>::empty(), scheme_prefix()));
        return Err(SignatureError::InvalidFormat);
    }
    if !has_scheme_prefix(raw) {
        return Err(SignatureError::InvalidFormat);
    }
    let hex_part = vstd::slice::slice_subrange(raw, 7, raw.len());
    match hex_decode(hex_part) {
        None => Err(SignatureError::InvalidHex),
        Some(tag) => Ok(tag),
    }
}

/// The header as the contracts see it.
pub open spec fn header_view(header: Option<&[u8]>) -> Option<Seq<u8>> {
    match header {
        None => None,
        Some(raw) => Some(raw@),
    }
}

/// Whether `provided_signature`, the hexadecimal text of a tag, is the
/// HMAC-SHA256 tag of exactly `raw_body` under `secret`. Text that is not
/// hexadecimal is never valid.
pub fn verify(secret: &[u8], raw_body: &[u8], provided_signature: &[u8]) -> (ok: bool)
    ensures
        ok == signature_valid(secret@, raw_body@, provided_signature@),
{
    match hex_decode(provided_signature) {
        None => false,
        Some(tag) => mac_matches(secret, raw_body, tag.as_slice()),
    }
}

/// Authenticates a delivery from its raw body and its signature header.
/// Succeeds only when the header is present, well formed and carries the tag
/// of the body; every other case names its reason.
pub fn authenticate(secret: &[u8], raw_body: &[u8], header: Option<&[u8]>) -> (r: Result<(), SignatureError>)
    ensures
        r == authenticated(secret@, raw_body@, header_view(header)),
{
    match parse_signature_header(header) {
        Err(e) => Err(e),
        Ok(tag) => {
            if mac_matches(secret, raw_body, tag.as_slice()) {
                Ok(())
            } else {
                Err(SignatureError::Mismatch)
            }
        },
    }
}

/// A body has at most one valid tag: once a signature is valid, any signature
/// that decodes to other bytes, or does not decode, is invalid.
pub proof fn lemma_valid_signature_is_unique(
    secret: Seq<u8>,
    raw_body: Seq<u8>,
    signature: Seq<u8>,
    other: Seq<u8>,
)
    requires
        signature_valid(secret, raw_body, signature),
        hex_decoded(other) != hex_decoded(signature),
    ensures
        !signature_valid(secret, raw_body, other),
{
}

/// A delivery whose body was changed after it was signed is not
/// authenticated, wherever the changed body has another tag than the body
/// that was signed. That two bodies have different tags is not known of any
/// two bodies: it is what the keyed hash is relied on for.
pub proof fn lemma_changed_body_is_rejected(
    secret: Seq<u8>,
    raw_body: Seq<u8>,
    changed: Seq<u8>,
    header: Option<Seq<u8>>,
)
    requires
        authenticated(secret, raw_body, header) is Ok,
        hmac_sha256(secret, changed) != hmac_sha256(secret, raw_body),
    ensures
        authenticated(secret, changed, header) == Err::<(), SignatureError>(SignatureError::Mismatch),
{
}

/// Authentication succeeds exactly when the header carries `sha256=` followed
/// by a valid signature of the body.
pub proof fn lemma_authenticated_iff_valid(secret: Seq<u8>, raw_body: Seq<u8>, raw_header: Seq<u8>)
    ensures
        authenticated(secret, raw_body, Some(raw_header)) is Ok <==> {
            let text = header_text(raw_header);
            has_prefix(text, scheme_prefix()) && signature_valid(
                secret,
                raw_body,
                text.subrange(scheme_prefix().len() as int, text.len() as int),
            )
        },
{
}

} // verus!
