//! Hex framing of the wire form of BOLT12 invoices.
use vstd::prelude::*;

verus! {

/// The lower-case hex digit of value `d`.
pub open spec fn hex_digit(d: int) -> char {
    seq!['0', '1', '2', '3', '4', '5', '6', '7', '8', '9', 'a', 'b', 'c', 'd', 'e', 'f'][d]
}

/// Two lower-case hex digits per byte, most significant digit first.
pub open spec fn hex_of(b: Seq<u8>) -> Seq<char>
    decreases b.len(),
{
    if b.len() == 0 {
        Seq::<char>::empty()
    } else {
        hex_of(b.drop_last()) + seq![hex_digit(b.last() as int / 16), hex_digit(b.last() as int % 16)]
    }
}

/// Whether `c` is a hex digit, in either case.
pub open spec fn is_hex_digit(c: char) -> bool {
    ('0' <= c && c <= '9') || ('a' <= c && c <= 'f') || ('A' <= c && c <= 'F')
}

/// The value of the hex digit `c`.
pub open spec fn hex_value(c: char) -> int {
    if '0' <= c && c <= '9' {
        c as int - '0' as int
    } else if 'a' <= c && c <= 'f' {
        c as int - 'a' as int + 10
    } else {
        c as int - 'A' as int + 10
    }
}

/// Text that is an even number of hex digits.
pub open spec fn is_hex_text(s: Seq<char>) -> bool {
    s.len() % 2 == 0 && forall|i: int| 0 <= i < s.len() ==> is_hex_digit(#[trigger] s[i])
}

/// The bytes that hex text stands for, two digits each.
pub open spec fn hex_bytes(s: Seq<char>) -> Seq<u8>
    decreases s.len(),
{
    if s.len() < 2 {
        Seq::<u8>::empty()
    } else {
        hex_bytes(s.subrange(0, s.len() - 2)).push(
            (16 * hex_value(s[s.len() - 2]) + hex_value(s[s.len() - 1])) as u8,
        )
    }
}

/// Declares hex's decoding error.
#[verifier::external_type_specification]
#[verifier::external_body]
pub struct ExFromHexError(hex::FromHexError);

/// Relies on hex::encode: each byte as two lower-case digits, high digit first.
#[verifier::external_body]
fn hex_encode(b: &[u8]) -> (r: String)
    ensures
        r@ == hex_of(b@),
{
    hex::encode(b)
}

/// Relies on hex::decode: an even number of digits of either case is decoded
/// two digits per byte; any other text is an error.
#[verifier::external_body]
fn hex_decode(s: &str) -> (r: Result<Vec<u8>, hex::FromHexError>)
    ensures
        r is Ok <==> is_hex_text(s@),
        r is Ok ==> r->Ok_0@ == hex_bytes(s@),
{
    hex::decode(s)
}

/// Why invoice text could not be read.
#[derive(Debug, Clone, Copy, PartialEq, Eq, Structural)]
pub enum CodecError {
    /// The text is not an even number of hex digits.
    InvalidHex,
    /// The bytes are not a signed BOLT12 invoice.
    InvalidInvoice,
    /// The text is not a BOLT12 offer.
    InvalidOffer,
}

/// Declares the Lightning library's BOLT12 offer.
#[verifier::external_type_specification]
#[verifier::external_body]
pub struct ExOffer(lightning::offers::offer::Offer);

/// Whether `s` is a well-formed BOLT12 offer in its bech32 text form.
pub uninterp spec fn is_bolt12_offer(s: Seq<char>) -> bool;

/// Relies on lightning's `Offer::from_str`: it accepts the bech32 text of a
/// well-formed offer and refuses anything else.
#[verifier::external_body]
fn parse_offer(s: &str) -> (r: Result<lightning::offers::offer::Offer, lightning::offers::parse::Bolt12ParseError>)
    ensures
        r is Ok <==> is_bolt12_offer(s@),
{
    <lightning::offers::offer::Offer as std::str::FromStr>::from_str(s)
}

/// Reads an offer given as bech32 text; a malformed one fails the request
/// before anything is contacted.
pub fn offer_from_text(s: &str) -> (r: Result<lightning::offers::offer::Offer, CodecError>)
    ensures
        r is Ok <==> is_bolt12_offer(s@),
        r is Err ==> r == Err::<lightning::offers::offer::Offer, CodecError>(CodecError::InvalidOffer),
{
    match parse_offer(s) {
        Ok(offer) => Ok(offer),
        Err(_) => Err(CodecError::InvalidOffer),
    }
}

/// Declares the Lightning library's BOLT12 invoice.
#[verifier::external_type_specification]
#[verifier::external_body]
pub struct ExBolt12Invoice(lightning::offers::invoice::Bolt12Invoice);

/// Declares the Lightning library's error for a message that does not parse.
#[verifier::external_type_specification]
#[verifier::external_body]
pub struct ExBolt12ParseError(lightning::offers::parse::Bolt12ParseError);

/// Whether `b` is the wire encoding of a well-formed, correctly signed
/// BOLT12 invoice.
pub uninterp spec fn is_bolt12_invoice(b: Seq<u8>) -> bool;

/// Relies on lightning's `Bolt12Invoice::try_from(Vec<u8>)`: it accepts the
/// wire encoding of a signed BOLT12 invoice and refuses anything else.
#[verifier::external_body]
fn parse_bolt12_invoice(bytes: Vec<u8>) -> (r: Result<
    lightning::offers::invoice::Bolt12Invoice,
    lightning::offers::parse::Bolt12ParseError,
>)
    ensures
        r is Ok <==> is_bolt12_invoice(bytes@),
{
    lightning::offers::invoice::Bolt12Invoice::try_from(bytes)
}

/// The hex text of an invoice's wire encoding.
pub fn encode_invoice_as_hex(wire: &[u8]) -> (r: String)
    ensures
        r@ == hex_of(wire@),
{
    hex_encode(wire)
}

/// The wire bytes of an invoice given as hex text.
pub fn invoice_bytes_from_hex(s: &str) -> (r: Result<Vec<u8>, CodecError>)
    ensures
        r is Ok <==> is_hex_text(s@),
        r is Ok ==> r->Ok_0@ == hex_bytes(s@),
        r is Err ==> r == Err::<Vec<u8>, CodecError>(CodecError::InvalidHex),
{
    match hex_decode(s) {
        Ok(v) => Ok(v),
        Err(_) => Err(CodecError::InvalidHex),
    }
}

/// Reads an invoice given as the hex text of its wire encoding.
pub fn invoice_from_hex(s: &str) -> (r: Result<lightning::offers::invoice::Bolt12Invoice, CodecError>)
    ensures
        r is Ok <==> is_hex_text(s@) && is_bolt12_invoice(hex_bytes(s@)),
        r == Err::<lightning::offers::invoice::Bolt12Invoice, CodecError>(CodecError::InvalidHex)
            <==> !is_hex_text(s@),
{
    match invoice_bytes_from_hex(s) {
        Err(e) => Err(e),
        Ok(bytes) => match parse_bolt12_invoice(bytes) {
            Ok(invoice) => Ok(invoice),
            Err(_) => Err(CodecError::InvalidInvoice),
        },
    }
}

proof fn lemma_digit(d: int)
    requires
        0 <= d < 16,
    ensures
        is_hex_digit(hex_digit(d)),
        hex_value(hex_digit(d)) == d,
{
    let t = seq!['0', '1', '2', '3', '4', '5', '6', '7', '8', '9', 'a', 'b', 'c', 'd', 'e', 'f'];
    assert(t[d] == hex_digit(d));
    if d == 0 { assert(t[0] == '0'); }
    else if d == 1 { assert(t[1] == '1'); }
    else if d == 2 { assert(t[2] == '2'); }
    else if d == 3 { assert(t[3] == '3'); }
    else if d == 4 { assert(t[4] == '4'); }
    else if d == 5 { assert(t[5] == '5'); }
    else if d == 6 { assert(t[6] == '6'); }
    else if d == 7 { assert(t[7] == '7'); }
    else if d == 8 { assert(t[8] == '8'); }
    else if d == 9 { assert(t[9] == '9'); }
    else if d == 10 { assert(t[10] == 'a'); }
    else if d == 11 { assert(t[11] == 'b'); }
    else if d == 12 { assert(t[12] == 'c'); }
    else if d == 13 { assert(t[13] == 'd'); }
    else if d == 14 { assert(t[14] == 'e'); }
    else { assert(t[15] == 'f'); }
}

proof fn lemma_hex_len(b: Seq<u8>)
    ensures
        hex_of(b).len() == 2 * b.len(),
    decreases b.len(),
{
    if b.len() > 0 {
        lemma_hex_len(b.drop_last());
    }
}

/// Encoding bytes as hex and decoding the text again gives back the same
/// bytes, and the encoded text is always accepted by the decoder.
pub proof fn lemma_hex_round_trip(b: Seq<u8>)
    ensures
        is_hex_text(hex_of(b)),
        hex_bytes(hex_of(b)) == b,
    decreases b.len(),
{
    lemma_hex_len(b);
    if b.len() > 0 {
        let p = b.drop_last();
        let x: int = b.last() as int;
        lemma_hex_round_trip(p);
        lemma_hex_len(p);
        let hi = hex_digit(x / 16);
        let lo = hex_digit(x % 16);
        lemma_digit(x / 16);
        lemma_digit(x % 16);
        let s = hex_of(b);
        assert(s == hex_of(p) + seq![hi, lo]);
        assert(s.subrange(0, s.len() - 2) =~= hex_of(p));
        assert(s[s.len() - 2] == hi);
        assert(s[s.len() - 1] == lo);
        assert(16 * (x / 16) + x % 16 == x);
        assert(hex_bytes(s) =~= b);
        assert forall|i: int| 0 <= i < s.len() implies is_hex_digit(#[trigger] s[i]) by {
            if i < s.len() - 2 {
                assert(s[i] == hex_of(p)[i]);
            }
        }
    }
}

} // verus!
