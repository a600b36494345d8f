//! What the backends read from an invoice, and the hexadecimal text of hashes
//! and preimages.

use vstd::prelude::*;

verus! {

/// What the backends read from a BOLT11 invoice.
#[derive(Debug, PartialEq, Eq)]
pub struct DecodedInvoice {
    /// The payment hash, in hexadecimal digits.
    pub payment_hash: String,
    /// The amount asked for, in millisatoshis, where the invoice names one.
    pub amount_msat: Option<u64>,
    /// When the invoice expires, in seconds since the epoch.
    pub expires_at: Option<u64>,
    /// The invoice, written out again.
    pub text: String,
}

/// A decoded invoice as plain values.
pub struct DecodedInvoiceView {
    pub payment_hash: Seq<char>,
    pub amount_msat: Option<u64>,
    pub expires_at: Option<u64>,
    pub text: Seq<char>,
}

impl View for DecodedInvoice {
    type V = DecodedInvoiceView;

    open spec fn view(&self) -> DecodedInvoiceView {
        DecodedInvoiceView {
            payment_hash: self.payment_hash@,
            amount_msat: self.amount_msat,
            expires_at: self.expires_at,
            text: self.text@,
        }
    }
}

/// What was read from a text, as plain values.
pub open spec fn decoded_view(decoded: Option<DecodedInvoice>) -> Option<DecodedInvoiceView> {
    match decoded {
        Some(invoice) => Some(invoice@),
        None => None,
    }
}

/// What `lightning_invoice` reads from a text: nothing where the text is not
/// a valid signed BOLT11 invoice.
pub uninterp spec fn bolt11_decoding(text: Seq<char>) -> Option<DecodedInvoiceView>;

/// The sixteen hexadecimal digits, in lower case.
pub open spec fn hex_digits() -> Seq<char> {
    seq!['0', '1', '2', '3', '4', '5', '6', '7', '8', '9', 'a', 'b', 'c', 'd', 'e', 'f']
}

/// Two lower-case hexadecimal digits for each byte, the high half first.
pub open spec fn hex_encoding(bytes: Seq<u8>) -> Seq<char> {
    Seq::new(
        2 * bytes.len(),
        |i: int|
            hex_digits()[if i % 2 == 0 {
                bytes[i / 2] as int / 16
            } else {
                bytes[i / 2] as int % 16
            }],
    )
}

/// Whether a character is a hexadecimal digit, in either case.
pub open spec fn is_hex_digit(c: char) -> bool {
    ('0' <= c && c <= '9') || ('a' <= c && c <= 'f') || ('A' <= c && c <= 'F')
}

/// Whether a text is a payment hash: sixty-four hexadecimal digits.
pub open spec fn is_payment_hash(text: Seq<char>) -> bool {
    text.len() == 64 && forall|i: int| 0 <= i < text.len() ==> is_hex_digit(#[trigger] text[i])
}

/// Parses a text with `lightning_invoice::Bolt11Invoice::from_str` and reads
/// from the invoice its payment hash (`payment_hash`, written in hexadecimal
/// digits), its amount (`amount_milli_satoshis`), its expiry (`expires_at`,
/// in whole seconds) and its text (`to_string`). All of it depends on the
/// text alone; the contract gives it the name `bolt11_decoding` and says no
/// more of it.
#[verifier::external_body]
pub(crate) fn decode_bolt11(text: &str) -> (decoded: Option<DecodedInvoice>)
    ensures
        decoded_view(decoded) == bolt11_decoding(text@),
{
    let invoice = text.parse::<cdk_common::Bolt11Invoice>().ok()?;
    Some(
        DecodedInvoice {
            payment_hash: invoice.payment_hash().to_string(),
            amount_msat: invoice.amount_milli_satoshis(),
            expires_at: match invoice.expires_at() {
                Some(at) => Some(at.as_secs()),
                None => None,
            },
            text: invoice.to_string(),
        },
    )
}

/// Calls `cdk_common::util::hex::encode`, which writes each byte as two
/// lower-case hexadecimal digits, the high half first.
#[verifier::external_body]
pub(crate) fn hex_encode(bytes: &Vec<u8>) -> (text: String)
    ensures
        text@ == hex_encoding(bytes@),
{
    cdk_common::util::hex::encode(bytes)
}

/// Parses a text as a `bitcoin::hashes::sha256::Hash`, which succeeds on
/// sixty-four hexadecimal digits of either case and on nothing else.
#[verifier::external_body]
pub(crate) fn parses_as_payment_hash(text: &str) -> (valid: bool)
    ensures
        valid == is_payment_hash(text@),
{
    text.parse::<bitcoin::hashes::sha256::Hash>().is_ok()
}

} // verus!
