use hmac::{Hmac, Mac};
use sha2::Sha512;
use vstd::prelude::*;

use crate::models::Student;
use crate::store::{paid_by_reference, reference_bound, AppStore};

verus! {

/// The HMAC-SHA512 tag of `data` under `key`, as `hmac` and `sha2` compute it.
pub uninterp spec fn hmac_sha512_of(key: Seq<u8>, data: Seq<u8>) -> Seq<u8>;

/// What a webhook body decodes to with `serde_json`: `None` when it is not
/// JSON; otherwise the string at `event` and the string at `data.reference`,
/// each `None` where absent or not a string.
pub uninterp spec fn webhook_fields_of(body: Seq<u8>) -> Option<(Option<Seq<char>>, Option<Seq<char>>)>;

/// The ASCII code of the lower-case hex digit for `n` (below 16).
pub open spec fn hex_digit(n: u8) -> u8 {
    if n < 10 {
        (48 + n) as u8
    } else {
        (87 + n) as u8
    }
}

/// Lower-case hex text of `b`, two digits per byte, high half first.
pub open spec fn hex_ascii(b: Seq<u8>) -> Seq<u8>
    decreases b.len(),
{
    if b.len() == 0 {
        Seq::empty()
    } else {
        hex_ascii(b.drop_last()) + seq![hex_digit(b.last() / 16), hex_digit(b.last() % 16)]
    }
}

/// The signature header value that a body must come with under `secret`.
pub open spec fn signature_of(secret: Seq<u8>, body: Seq<u8>) -> Seq<u8> {
    hex_ascii(hmac_sha512_of(secret, body))
}

/// The provider's event name for a successful charge.
pub open spec fn charge_success() -> Seq<char> {
    seq!['c', 'h', 'a', 'r', 'g', 'e', '.', 's', 'u', 'c', 'c', 'e', 's', 's']
}

/// The fields of a decoded webhook event that reconciliation reads.
pub struct WebhookEvent {
    pub event: Option<String>,
    pub reference: Option<String>,
}

pub open spec fn opt_view(o: Option<String>) -> Option<Seq<char>> {
    match o {
        Some(s) => Some(s@),
        None => None,
    }
}

pub open spec fn event_view(e: WebhookEvent) -> (Option<Seq<char>>, Option<Seq<char>>) {
    (opt_view(e.event), opt_view(e.reference))
}

/// The answer to a webhook delivery.
#[derive(Debug, Clone, Copy, PartialEq, Eq, Structural)]
pub enum WebhookStatus {
    /// Signature and body were good; the provider must not retry.
    Acknowledged,
    /// The signature header is missing or does not match.
    Unauthorized,
    /// The signed body is not JSON.
    BadRequest,
}

/// Whether an event with these fields, applied to `old`, gives `new`: a
/// successful charge with a reference marks the student that carries it as
/// paid, if there is one; anything else changes nothing.
pub open spec fn event_applied(
    old: Seq<Student>,
    new: Seq<Student>,
    event: Option<Seq<char>>,
    reference: Option<Seq<char>>,
) -> bool {
    match reference {
        Some(r) => if event == Some(charge_success()) && reference_bound(old, r) {
            paid_by_reference(old, new, r)
        } else {
            new == old
        },
        None => new == old,
    }
}

/// Relies on `hmac::Hmac<sha2::Sha512>`: the 64-byte tag of `data` under
/// `key`. Any key length is accepted.
#[verifier::external_body]
fn hmac_sha512(key: &[u8], data: &[u8]) -> (r: Vec<u8>)
    ensures
        r@ == hmac_sha512_of(key@, data@),
        r@.len() == 64,
{
    let mut mac = Hmac::<Sha512>::new_from_slice(key).expect("HMAC takes a key of any size");
    mac.update(data);
    mac.finalize().into_bytes().to_vec()
}

/// Relies on `hex::encode`: lower-case hex digits, two per byte, as ASCII bytes.
#[verifier::external_body]
fn to_hex(b: &[u8]) -> (r: Vec<u8>)
    ensures
        r@ == hex_ascii(b@),
{
    hex::encode(b).into_bytes()
}

/// Relies on `serde_json::from_slice` into a `serde_json::Value`, then on
/// indexing it at `event` and at `data.reference` and `Value::as_str`.
#[verifier::external_body]
fn decode_event(body: &[u8]) -> (r: Option<WebhookEvent>)
    ensures
        match r {
            Some(e) => webhook_fields_of(body@) == Some(event_view(e)),
            None => webhook_fields_of(body@) is None,
        },
{
    let v: serde_json::Value = serde_json::from_slice(body).ok()?;
    Some(WebhookEvent {
        event: v["event"].as_str().map(String::from),
        reference: v["data"]["reference"].as_str().map(String::from),
    })
}

/// Compares two byte strings in time that depends on their lengths only.
pub fn signatures_equal(a: &[u8], b: &[u8]) -> (r: bool)
    ensures
        r == (a@ == b@),
{
    if a.len() != b.len() {
        return false;
    }
    let mut diff: u8 = 0;
    let mut i: usize = 0;
    assert(a@.subrange(0, 0) =~= b@.subrange(0, 0));
    while i < a.len()
        invariant
            i <= a@.len(),
            a@.len() == b@.len(),
            (diff == 0) == (a@.subrange(0, i as int) == b@.subrange(0, i as int)),
        decreases a@.len() - i,
    {
        let x = a[i];
        let y = b[i];
        let next = diff | (x ^ y);
        assert((next == 0) == (diff == 0 && x == y)) by (bit_vector)
            requires
                next == diff | (x ^ y),
        ;
        proof {
            let sa = a@.subrange(0, i as int);
            let sb = b@.subrange(0, i as int);
            assert(a@.subrange(0, i + 1) == sa.push(x));
            assert(b@.subrange(0, i + 1) == sb.push(y));
            if sa.push(x) == sb.push(y) {
                assert(sa == sa.push(x).drop_last());
                assert(sb == sb.push(y).drop_last());
                assert(x == sa.push(x).last());
            }
        }
        diff = next;
        i += 1;
    }
    assert(a@.subrange(0, i as int) == a@);
    assert(b@.subrange(0, i as int) == b@);
    diff == 0
}

/// The signature header value that a body must come with under `secret`.
pub fn expected_signature(secret: &[u8], body: &[u8]) -> (r: Vec<u8>)
    ensures
        r@ == signature_of(secret@, body@),
{
    let tag = hmac_sha512(secret, body);
    to_hex(tag.as_slice())
}

/// Whether a signature header is present and matches the body under `secret`.
pub fn signature_valid(secret: &[u8], body: &[u8], signature: Option<&[u8]>) -> (r: bool)
    ensures
        r == (signature matches Some(s) && s@ == signature_of(secret@, body@)),
{
    match signature {
        Some(s) => {
            let expected = expected_signature(secret, body);
            signatures_equal(expected.as_slice(), s)
        },
        None => false,
    }
}

impl AppStore {
    /// Applies a decoded (or undecodable) signed event. An undecodable body
    /// gives `BadRequest` and changes nothing. Otherwise the answer is
    /// `Acknowledged`, whether or not the event was a successful charge and
    /// whether or not a student carries its reference.
    pub fn apply_webhook_event(&mut self, event: Option<WebhookEvent>) -> (r: WebhookStatus)
        requires
            old(self).wf(),
        ensures
            final(self).wf(),
            final(self).schools@ == old(self).schools@,
            match event {
                None => r == WebhookStatus::BadRequest && final(self).students@ == old(
                    self,
                ).students@,
                Some(e) => r == WebhookStatus::Acknowledged && event_applied(
                    old(self).students@,
                    final(self).students@,
                    opt_view(e.event),
                    opt_view(e.reference),
                ),
            },
    {
        let e = match event {
            Some(e) => e,
            None => {
                return WebhookStatus::BadRequest;
            },
        };
        let success = "charge.success".to_owned();
        proof {
            reveal_strlit("charge.success");
            assert("charge.success"@ == charge_success());
        }
        let is_charge = match &e.event {
            Some(name) => *name == success,
            None => false,
        };
        if is_charge {
            match &e.reference {
                Some(reference) => {
                    // A reference that no student carries is not the provider's concern.
                    let _ = self.mark_student_paid_by_reference(reference.as_str());
                },
                None => {},
            }
        }
        WebhookStatus::Acknowledged
    }

    /// Handles one webhook delivery: the raw body and its signature header.
    /// A missing or wrong signature gives `Unauthorized` and the body is
    /// neither decoded nor acted on; otherwise see `apply_webhook_event`.
    pub fn handle_webhook(&mut self, secret: &[u8], signature: Option<&[u8]>, body: &[u8]) -> (r:
        WebhookStatus)
        requires
            old(self).wf(),
        ensures
            final(self).wf(),
            final(self).schools@ == old(self).schools@,
            !(signature matches Some(s) && s@ == signature_of(secret@, body@)) ==> r
                == WebhookStatus::Unauthorized && final(self).students@ == old(self).students@,
            (signature matches Some(s) && s@ == signature_of(secret@, body@)) ==> match webhook_fields_of(body@) {
                None => r == WebhookStatus::BadRequest && final(self).students@ == old(
                    self,
                ).students@,
                Some(f) => r == WebhookStatus::Acknowledged && event_applied(
                    old(self).students@,
                    final(self).students@,
                    f.0,
                    f.1,
                ),
            },
    {
        if !signature_valid(secret, body, signature) {
            return WebhookStatus::Unauthorized;
        }
        let event = decode_event(body);
        self.apply_webhook_event(event)
    }
}

} // verus!
