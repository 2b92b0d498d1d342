//! The HTTP face of the engine: how a delivery is admitted, what is answered
//! to its sender, and who the client behind a proxy is.

use crate::decode::{classified_decoded, classify_delivery, decoded, DeliveryError};
use crate::event::{Classified, ValidationError};
use crate::reconcile::CorrelationError;
use crate::remote::RemoteError;
use crate::signature::{
    authenticate, authenticated, header_view, hmac_sha256, lemma_changed_body_is_rejected, SignatureError,
};
use vstd::prelude::*;

verus! {

/// The uniform error body of the HTTP interface: a list of messages.
#[derive(Debug)]
pub struct ApiError<'a> {
    pub errors: &'a [&'a str],
}

impl<'a> ApiError<'a> {
    /// An error body that carries exactly the given messages, in order.
    pub fn new(errors: &'a [&'a str]) -> (r: Self)
        ensures
            r.errors == errors,
    {
        ApiError { errors }
    }
}

/// Why a delivery is turned away.
#[derive(Clone, Copy, Debug, PartialEq, Eq, Structural)]
#[allow(inconsistent_fields)]
pub enum Rejection {
    /// The delivery was not authenticated.
    Signature { reason: SignatureError },
    /// The delivery does not say what kind of event it is.
    MissingEventHeader,
    /// The body is no valid event of the declared kind.
    Delivery { reason: DeliveryError },
}

impl Rejection {
    /// The HTTP status that answers the delivery.
    pub open spec fn spec_status(self) -> u16 {
        match self {
            Rejection::Signature { reason } => reason.spec_status(),
            Rejection::MissingEventHeader => 400,
            Rejection::Delivery { reason } => 400,
        }
    }

    /// The message of the error body.
    pub open spec fn spec_message(self) -> Seq<char> {
        match self {
            Rejection::Signature { reason } => reason.spec_message(),
            Rejection::MissingEventHeader => "missing X-GitHub-Event header"@,
            Rejection::Delivery { reason } => match reason {
                DeliveryError::Undecodable => "malformed webhook payload"@,
                DeliveryError::Invalid { reason } => reason.spec_message(),
            },
        }
    }

    /// The HTTP status that answers the delivery: 401 where the signature is
    /// missing or wrong, 400 for everything else that is turned away.
    pub fn status(&self) -> (code: u16)
        ensures
            code == self.spec_status(),
            code == 400 || code == 401,
    {
        match self {
            Rejection::Signature { reason } => reason.status(),
            Rejection::MissingEventHeader => 400,
            Rejection::Delivery { .. } => 400,
        }
    }

    /// The one message of the error body that answers the delivery.
    pub fn message(&self) -> (text: String)
        ensures
            text@ == self.spec_message(),
    {
        match self {
            Rejection::Signature { reason } => reason.message(),
            Rejection::MissingEventHeader => String::from_str("missing X-GitHub-Event header"),
            Rejection::Delivery { reason } => match reason {
                DeliveryError::Undecodable => ValidationError::MalformedPayload.message(),
                DeliveryError::Invalid { reason } => reason.message(),
            },
        }
    }
}

/// The HTTP status of a delivery that was handled or ignored.
pub const ACKNOWLEDGED: u16 = 200;

/// The HTTP status of a delivery that was admitted and whose handling failed
/// on the remote side or in the store.
pub const FAILED: u16 = 500;

/// How the handling of an admitted delivery ended.
#[derive(Clone, Copy, Debug, PartialEq, Eq, Structural)]
#[allow(inconsistent_fields)]
pub enum Outcome {
    /// The event was handled, or there was nothing to do.
    Done,
    /// A continuing event found no tracked object. It is logged; the sender
    /// is not told, since sending the event again would not help.
    Uncorrelated { error: CorrelationError },
    /// The remote side failed in passing. The sender is told, and may send
    /// the event again.
    Failed { error: RemoteError },
}

impl Outcome {
    /// The HTTP status that answers the delivery.
    pub fn status(&self) -> (code: u16)
        ensures
            code == match self {
                Outcome::Done => ACKNOWLEDGED,
                Outcome::Uncorrelated { .. } => ACKNOWLEDGED,
                Outcome::Failed { .. } => FAILED,
            },
    {
        match self {
            Outcome::Done => ACKNOWLEDGED,
            Outcome::Uncorrelated { .. } => ACKNOWLEDGED,
            Outcome::Failed { .. } => FAILED,
        }
    }

    /// The message that is logged for the outcome, where there is one.
    pub fn log(&self) -> (text: Option<String>)
        ensures
            match self {
                Outcome::Done => text is None,
                Outcome::Uncorrelated { .. } => text matches Some(t) && t@
                    == "no tracked object for this correlation key"@,
                Outcome::Failed { .. } => text matches Some(t) && t@ == "the remote side could not be reached"@,
            },
    {
        match self {
            Outcome::Done => None,
            Outcome::Uncorrelated { error } => Some(error.message()),
            Outcome::Failed { error } => Some(error.message()),
        }
    }
}

/// The outcome of admitting a delivery. It is authenticated first; then it
/// must say what kind of event it is; then its body is decoded as an event of
/// that kind and classified.
pub open spec fn admitted(
    secret: Seq<u8>,
    raw_body: Seq<u8>,
    signature_header: Option<Seq<u8>>,
    event_header: Option<Seq<char>>,
) -> Result<Classified, Rejection> {
    match authenticated(secret, raw_body, signature_header) {
        Err(reason) => Err(Rejection::Signature { reason }),
        Ok(_) => match event_header {
            None => Err(Rejection::MissingEventHeader),
            Some(event_type) => match classified_decoded(decoded(event_type, raw_body)) {
                Ok(c) => Ok(c),
                Err(reason) => Err(Rejection::Delivery { reason }),
            },
        },
    }
}

/// A delivery whose body was changed after it was signed is turned away with
/// status 401 before anything is decoded, wherever the changed body has
/// another tag than the body that was signed.
pub proof fn lemma_changed_body_is_turned_away(
    secret: Seq<u8>,
    raw_body: Seq<u8>,
    changed: Seq<u8>,
    signature_header: Option<Seq<u8>>,
    event_header: Option<Seq<char>>,
)
    requires
        authenticated(secret, raw_body, signature_header) is Ok,
        hmac_sha256(secret, changed) != hmac_sha256(secret, raw_body),
    ensures
        admitted(secret, changed, signature_header, event_header) == Err::<Classified, Rejection>(
            Rejection::Signature { reason: SignatureError::Mismatch },
        ),
        (Rejection::Signature { reason: SignatureError::Mismatch }).spec_status() == 401,
{
    lemma_changed_body_is_rejected(secret, raw_body, changed, signature_header);
}

/// Admits a delivery: authenticates it, then decodes and classifies it.
/// Nothing is decoded before the signature has been found valid.
pub fn route(secret: &[u8], raw_body: &[u8], signature_header: Option<&[u8]>, event_header: Option<&str>) -> (r:
    Result<Classified, Rejection>)
    ensures
        r == admitted(secret@, raw_body@, header_view(signature_header), str_view(event_header)),
{
    match authenticate(secret, raw_body, signature_header) {
        Err(reason) => Err(Rejection::Signature { reason }),
        Ok(_) => match event_header {
            None => Err(Rejection::MissingEventHeader),
            Some(event_type) => match classify_delivery(event_type, raw_body) {
                Ok(c) => Ok(c),
                Err(reason) => Err(Rejection::Delivery { reason }),
            },
        },
    }
}

/// Whether a character is white space.
pub open spec fn is_space(c: char) -> bool {
    let n = c as u32;
    (9 <= n <= 13) || n == 0x20 || n == 0x85 || n == 0xa0 || n == 0x1680 || (0x2000 <= n <= 0x200a) || n == 0x2028
        || n == 0x2029 || n == 0x202f || n == 0x205f || n == 0x3000
}

/// A text without the white space at its start.
pub open spec fn trim_start(s: Seq<char>) -> Seq<char>
    decreases s.len(),
{
    if s.len() > 0 && is_space(s[0]) {
        trim_start(s.drop_first())
    } else {
        s
    }
}

/// A text without the white space at its end.
pub open spec fn trim_end(s: Seq<char>) -> Seq<char>
    decreases s.len(),
{
    if s.len() > 0 && is_space(s.last()) {
        trim_end(s.drop_last())
    } else {
        s
    }
}

/// The position of the first comma of a text, or its length where it has
/// none.
pub open spec fn comma_at(s: Seq<char>) -> int
    decreases s.len(),
{
    if s.len() == 0 || s[0] == ',' {
        0
    } else {
        1 + comma_at(s.drop_first())
    }
}

/// The address in the value of a forwarding header: the value itself where it
/// holds no comma, what stands before the first comma, less the white space
/// around it, where it holds one.
pub open spec fn first_hop(value: Seq<char>) -> Seq<char> {
    if comma_at(value) < value.len() {
        trim_end(trim_start(value.subrange(0, comma_at(value))))
    } else {
        value
    }
}

/// The text that names the client of a request: taken from `x-real-ip`
/// where that header is present, from `x-forwarded-for` otherwise. `None`
/// where neither is present or the one that is chosen is empty.
pub open spec fn client_text(x_real_ip: Option<Seq<char>>, x_forwarded_for: Option<Seq<char>>) -> Option<Seq<char>> {
    let chosen = match x_real_ip {
        Some(v) => Some(v),
        None => x_forwarded_for,
    };
    match chosen {
        Some(v) => if v.len() == 0 {
            None
        } else {
            Some(first_hop(v))
        },
        None => None,
    }
}

proof fn lemma_comma_at(s: Seq<char>, k: int)
    requires
        0 <= k <= s.len(),
        forall|i: int| 0 <= i < k ==> s[i] != ',',
        k < s.len() ==> s[k] == ',',
    ensures
        comma_at(s) == k,
    decreases k,
{
    if k > 0 {
        let rest = s.drop_first();
        assert forall|i: int| 0 <= i < k - 1 implies rest[i] != ',' by {
            assert(rest[i] == s[i + 1]);
        }
        if k < s.len() {
            assert(rest[k - 1] == s[k]);
        }
        lemma_comma_at(rest, k - 1);
    }
}

proof fn lemma_trim_start(s: Seq<char>, a: int)
    requires
        0 <= a <= s.len(),
        forall|i: int| 0 <= i < a ==> is_space(s[i]),
        a < s.len() ==> !is_space(s[a]),
    ensures
        trim_start(s) == s.subrange(a, s.len() as int),
    decreases a,
{
    if a == 0 {
        assert(s.subrange(0, s.len() as int) =~= s);
    } else {
        let rest = s.drop_first();
        assert forall|i: int| 0 <= i < a - 1 implies is_space(rest[i]) by {
            assert(rest[i] == s[i + 1]);
        }
        lemma_trim_start(rest, a - 1);
        assert(rest.subrange(a - 1, rest.len() as int) =~= s.subrange(a, s.len() as int));
    }
}

proof fn lemma_trim_end(s: Seq<char>, b: int)
    requires
        0 <= b <= s.len(),
        forall|i: int| b <= i < s.len() ==> is_space(s[i]),
        b > 0 ==> !is_space(s[b - 1]),
    ensures
        trim_end(s) == s.subrange(0, b),
    decreases s.len() - b,
{
    if b == s.len() {
        assert(s.subrange(0, b) =~= s);
    } else {
        let rest = s.drop_last();
        lemma_trim_end(rest, b);
        assert(rest.subrange(0, b) =~= s.subrange(0, b));
    }
}

fn space(c: char) -> (yes: bool)
    ensures
        yes == is_space(c),
{
    let n: u32 = c as u32;
    (9 <= n && n <= 13) || n == 0x20 || n == 0x85 || n == 0xa0 || n == 0x1680 || (0x2000 <= n && n <= 0x200a) || n
        == 0x2028 || n == 0x2029 || n == 0x202f || n == 0x205f || n == 0x3000
}

fn first_hop_of(value: &str) -> (r: &str)
    ensures
        r@ == first_hop(value@),
{
    let len: usize = value.unicode_len();
    let k = crate::text::find_char(value, ',');
    proof {
        lemma_comma_at(value@, k as int);
    }
    if k == len {
        return value;
    }
    let ghost part = value@.subrange(0, k as int);
    let mut a: usize = 0;
    while a < k && space(value.get_char(a))
        invariant
            len == value@.len(),
            a <= k <= len,
            forall|i: int| 0 <= i < a ==> is_space(value@[i]),
        decreases k - a,
    {
        a += 1;
    }
    let mut b: usize = k;
    while b > a && space(value.get_char(b - 1))
        invariant
            len == value@.len(),
            a <= b <= k <= len,
            forall|i: int| b <= i < k ==> is_space(value@[i]),
        decreases b,
    {
        b -= 1;
    }
    proof {
        assert forall|i: int| 0 <= i < a implies is_space(part[i]) by {
            assert(part[i] == value@[i]);
        }
        lemma_trim_start(part, a as int);
        let t = part.subrange(a as int, k as int);
        assert forall|i: int| b - a <= i < t.len() implies is_space(t[i]) by {
            assert(t[i] == value@[i + a]);
        }
        lemma_trim_end(t, b - a);
        assert(t.subrange(0, b - a) =~= value@.subrange(a as int, b as int));
    }
    value.substring_char(a, b)
}

/// The header values as the contracts see them.
pub open spec fn str_view(value: Option<&str>) -> Option<Seq<char>> {
    match value {
        Some(v) => Some(v@),
        None => None,
    }
}

/// Picks the text that names the client of a request out of the forwarding
/// headers. Each header is given as its text, the empty text where its value
/// is no text. What is returned still has to be read as an address.
pub fn extract_ip(x_real_ip: Option<&str>, x_forwarded_for: Option<&str>) -> (text: Option<String>)
    ensures
        match text {
            Some(t) => client_text(str_view(x_real_ip), str_view(x_forwarded_for)) == Some(t@),
            None => client_text(str_view(x_real_ip), str_view(x_forwarded_for)) is None,
        },
{
    let chosen = match x_real_ip {
        Some(v) => Some(v),
        None => x_forwarded_for,
    };
    match chosen {
        Some(v) => {
            if v.unicode_len() == 0 {
                None
            } else {
                Some(String::from_str(first_hop_of(v)))
            }
        },
        None => None,
    }
}

} // verus!
