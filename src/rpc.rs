//! The gateway's RPC message schema.
use vstd::prelude::*;

verus! {

/// The feature bit reported for every invoice: optional multi-part payments.
pub const FEATURE_BIT_MPP_OPT: i32 = 17;

/// Wire value of the first node of a channel.
pub const DIRECTION_NODE_ONE: i32 = 0;

/// Wire value of the second node of a channel.
pub const DIRECTION_NODE_TWO: i32 = 1;

/// A compressed public key.
#[derive(Debug, Clone)]
pub struct PublicKey {
    pub key: Vec<u8>,
}

/// A payment hash.
#[derive(Debug, Clone)]
pub struct PaymentHash {
    pub hash: Vec<u8>,
}

/// A short channel id together with the side of the channel it points at.
#[derive(Debug, Clone, Copy)]
pub struct DirectedShortChannelId {
    pub direction: i32,
    pub scid: u64,
}

/// Entry point of a blinded path; exactly one of the fields is set.
#[derive(Debug, Clone)]
pub struct IntroductionNode {
    pub node_id: Option<PublicKey>,
    pub directed_short_channel_id: Option<DirectedShortChannelId>,
}

/// One hop of a blinded path.
#[derive(Debug, Clone)]
pub struct BlindedHop {
    pub blinded_node_id: Option<PublicKey>,
    pub encrypted_payload: Vec<u8>,
}

/// A blinded path.
#[derive(Debug, Clone)]
pub struct BlindedPath {
    pub introduction_node: Option<IntroductionNode>,
    pub blinding_point: Option<PublicKey>,
    pub blinded_hops: Vec<BlindedHop>,
}

/// Fees and limits of a blinded payment path.
#[derive(Debug, Clone)]
pub struct BlindedPayInfo {
    pub fee_base_msat: u32,
    pub fee_proportional_millionths: u32,
    pub cltv_expiry_delta: u32,
    pub htlc_minimum_msat: u64,
    pub htlc_maximum_msat: u64,
    pub features: Vec<i32>,
}

/// A payment path with its fee information.
#[derive(Debug, Clone)]
pub struct PaymentPaths {
    pub blinded_pay_info: Option<BlindedPayInfo>,
    pub blinded_path: Option<BlindedPath>,
}

/// The readable contents of a BOLT12 invoice.
#[derive(Debug, Clone)]
pub struct Bolt12InvoiceContents {
    pub chain: String,
    pub quantity: Option<u64>,
    pub amount_msats: u64,
    pub description: Option<String>,
    pub payment_hash: Option<PaymentHash>,
    pub created_at: i64,
    pub relative_expiry: u64,
    pub node_id: Option<PublicKey>,
    pub signature: String,
    pub payment_paths: Vec<PaymentPaths>,
    pub features: Vec<i32>,
    pub payer_note: Option<String>,
}

/// Reply to a request for an invoice.
#[derive(Debug, Clone)]
pub struct GetInvoiceResponse {
    pub invoice_hex_str: String,
    pub invoice_contents: Option<Bolt12InvoiceContents>,
}

/// Reply to a payment: the preimage that proves it.
#[derive(Debug, Clone)]
pub struct PayOfferResponse {
    pub payment_preimage: String,
}

/// Reply to the payment of an invoice.
#[derive(Debug, Clone)]
pub struct PayInvoiceResponse {
    pub payment_preimage: String,
}

} // verus!
