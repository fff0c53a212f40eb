//! A BOLT12 invoice as plain values, and its projection into the RPC schema.
use vstd::prelude::*;
use crate::rpc;

verus! {

/// A public key in its 33-byte compressed encoding.
#[derive(Debug, Clone)]
pub struct PublicKey {
    pub bytes: Vec<u8>,
}

impl PublicKey {
    /// A compressed key is 33 bytes long, and its first byte gives the
    /// parity of the point's y-coordinate: 2 for even, 3 for odd.
    pub open spec fn wf(&self) -> bool {
        self.bytes@.len() == 33 && (self.bytes@[0] == 2 || self.bytes@[0] == 3)
    }
}

/// Which end of a channel a short channel id designates.
#[derive(Debug, Clone, Copy, PartialEq, Eq, Structural)]
pub enum Direction {
    NodeOne,
    NodeTwo,
}

/// The entry point of a blinded path.
#[derive(Debug, Clone)]
pub enum IntroductionNode {
    NodeId(PublicKey),
    DirectedShortChannelId(Direction, u64),
}

/// One hop of a blinded path.
#[derive(Debug, Clone)]
pub struct BlindedHop {
    pub blinded_node_id: PublicKey,
    pub encrypted_payload: Vec<u8>,
}

/// Fees and limits for paying through a blinded path.
#[derive(Debug, Clone, Copy)]
pub struct BlindedPayInfo {
    pub fee_base_msat: u32,
    pub fee_proportional_millionths: u32,
    pub cltv_expiry_delta: u16,
    pub htlc_minimum_msat: u64,
    pub htlc_maximum_msat: u64,
}

/// A blinded path to the payee together with what paying through it costs.
#[derive(Debug, Clone)]
pub struct BlindedPaymentPath {
    pub payinfo: BlindedPayInfo,
    pub introduction_node: IntroductionNode,
    pub blinding_point: PublicKey,
    pub blinded_hops: Vec<BlindedHop>,
}

/// The amount an invoice or offer asks for.
#[derive(Debug, Clone, Copy, PartialEq, Eq, Structural)]
pub enum Amount {
    /// An amount in millisatoshis.
    Bitcoin { amount_msats: u64 },
    /// An amount in a fiat currency.
    /// The ISO 4217 code is its three letters as bytes, packed big-endian.
    Currency { iso4217_code: u32, amount: u64 },
}

/// The data of a BOLT12 invoice: the fields the gateway reads, and its wire encoding.
#[derive(Debug, Clone)]
pub struct InvoiceData {
    pub chain: String,
    pub quantity: Option<u64>,
    pub amount: Option<Amount>,
    pub amount_msats: u64,
    pub description: Option<String>,
    pub payment_hash: Vec<u8>,
    /// Seconds since the Unix epoch.
    pub created_at: u64,
    /// Seconds after creation until expiry.
    pub relative_expiry: u64,
    pub signing_pubkey: PublicKey,
    pub signature: String,
    pub payment_paths: Vec<BlindedPaymentPath>,
    pub payer_note: Option<String>,
    /// The invoice as it is written on the wire.
    pub wire: Vec<u8>,
}

/// `r` is the RPC form of the key `k`.
pub open spec fn key_converted(r: rpc::PublicKey, k: PublicKey) -> bool {
    r.key@ == k.bytes@
}

/// `r` is set and is the RPC form of the key `k`.
pub open spec fn some_key_converted(r: Option<rpc::PublicKey>, k: PublicKey) -> bool {
    r is Some && key_converted(r->0, k)
}

/// The wire value of a direction.
pub open spec fn direction_value(d: Direction) -> i32 {
    match d {
        Direction::NodeOne => rpc::DIRECTION_NODE_ONE,
        Direction::NodeTwo => rpc::DIRECTION_NODE_TWO,
    }
}

/// `r` is the RPC form of the introduction node `n`: a node id alone, or a
/// directed short channel id alone.
pub open spec fn introduction_converted(r: rpc::IntroductionNode, n: IntroductionNode) -> bool {
    match n {
        IntroductionNode::NodeId(k) => some_key_converted(r.node_id, k)
            && r.directed_short_channel_id is None,
        IntroductionNode::DirectedShortChannelId(d, scid) => r.node_id is None
            && r.directed_short_channel_id == Some(
            rpc::DirectedShortChannelId { direction: direction_value(d), scid },
        ),
    }
}

/// `r` is the RPC form of the hop `h`.
pub open spec fn hop_converted(r: rpc::BlindedHop, h: BlindedHop) -> bool {
    some_key_converted(r.blinded_node_id, h.blinded_node_id) && r.encrypted_payload@
        == h.encrypted_payload@
}

/// `r` is the RPC form of the blinded path of `p`, hop by hop in order.
pub open spec fn path_converted(r: rpc::BlindedPath, p: BlindedPaymentPath) -> bool {
    &&& r.introduction_node is Some
    &&& introduction_converted(r.introduction_node->0, p.introduction_node)
    &&& some_key_converted(r.blinding_point, p.blinding_point)
    &&& r.blinded_hops@.len() == p.blinded_hops@.len()
    &&& forall|i: int|
        0 <= i < r.blinded_hops@.len() ==> hop_converted(
            #[trigger] r.blinded_hops@[i],
            p.blinded_hops@[i],
        )
}

/// `r` is the RPC form of the fee information `i`, with no features.
pub open spec fn pay_info_converted(r: rpc::BlindedPayInfo, i: BlindedPayInfo) -> bool {
    &&& r.fee_base_msat == i.fee_base_msat
    &&& r.fee_proportional_millionths == i.fee_proportional_millionths
    &&& r.cltv_expiry_delta == i.cltv_expiry_delta as u32
    &&& r.htlc_minimum_msat == i.htlc_minimum_msat
    &&& r.htlc_maximum_msat == i.htlc_maximum_msat
    &&& r.features@.len() == 0
}

/// `r` is the RPC form of the payment path `p`.
pub open spec fn payment_path_converted(r: rpc::PaymentPaths, p: BlindedPaymentPath) -> bool {
    &&& r.blinded_pay_info is Some
    &&& pay_info_converted(r.blinded_pay_info->0, p.payinfo)
    &&& r.blinded_path is Some
    &&& path_converted(r.blinded_path->0, p)
}

/// `r` is the RPC form of the payment paths `ps`, one entry for each, in order.
pub open spec fn payment_paths_converted(r: Seq<rpc::PaymentPaths>, ps: Seq<BlindedPaymentPath>) -> bool {
    &&& r.len() == ps.len()
    &&& forall|i: int| 0 <= i < r.len() ==> payment_path_converted(#[trigger] r[i], ps[i])
}

/// The feature bits reported for every invoice.
pub open spec fn reported_features() -> Seq<i32> {
    seq![rpc::FEATURE_BIT_MPP_OPT]
}

/// Two optional strings hold the same text.
pub open spec fn same_text(a: Option<String>, b: Option<String>) -> bool {
    match (a, b) {
        (None, None) => true,
        (Some(x), Some(y)) => x@ == y@,
        _ => false,
    }
}

/// `r` is the RPC form of the invoice `inv`.
pub open spec fn contents_converted(r: rpc::Bolt12InvoiceContents, inv: InvoiceData) -> bool {
    &&& r.chain@ == inv.chain@
    &&& r.quantity == inv.quantity
    &&& r.amount_msats == inv.amount_msats
    &&& same_text(r.description, inv.description)
    &&& r.payment_hash is Some
    &&& r.payment_hash->0.hash@ == inv.payment_hash@
    &&& r.created_at == inv.created_at as i64
    &&& r.relative_expiry == inv.relative_expiry
    &&& some_key_converted(r.node_id, inv.signing_pubkey)
    &&& r.signature@ == inv.signature@
    &&& payment_paths_converted(r.payment_paths@, inv.payment_paths@)
    &&& r.features@ == reported_features()
    &&& same_text(r.payer_note, inv.payer_note)
}

/// A copy of a byte string.
fn copy_bytes(b: &Vec<u8>) -> (r: Vec<u8>)
    ensures
        r@ == b@,
{
    let mut r: Vec<u8> = Vec::new();
    let mut i: usize = 0;
    while i < b.len()
        invariant
            i <= b@.len(),
            r@ == b@.take(i as int),
        decreases b@.len() - i,
    {
        r.push(b[i]);
        i = i + 1;
        proof {
            assert(r@ =~= b@.take(i as int));
        }
    }
    proof {
        assert(b@.take(b@.len() as int) =~= b@);
    }
    r
}

/// A copy of an optional string.
fn copy_text(s: &Option<String>) -> (r: Option<String>)
    ensures
        same_text(r, *s),
{
    match s {
        Some(t) => Some(t.clone()),
        None => None,
    }
}

/// The RPC form of a public key.
pub fn convert_public_key(native_pub_key: &PublicKey) -> (r: rpc::PublicKey)
    ensures
        key_converted(r, *native_pub_key),
        native_pub_key.wf() ==> r.key@.len() == 33 && (r.key@[0] == 2 || r.key@[0] == 3),
{
    rpc::PublicKey { key: copy_bytes(&native_pub_key.bytes) }
}

/// The feature bits reported for an invoice: always optional multi-part
/// payments alone, whatever the invoice's own features are.
pub fn convert_invoice_features() -> (r: Vec<i32>)
    ensures
        r@ == reported_features(),
{
    let mut r: Vec<i32> = Vec::new();
    r.push(rpc::FEATURE_BIT_MPP_OPT);
    proof {
        assert(r@ =~= reported_features());
    }
    r
}

/// The RPC form of the fee information of a blinded path.
pub fn convert_blinded_pay_info(native_info: &BlindedPayInfo) -> (r: rpc::BlindedPayInfo)
    ensures
        pay_info_converted(r, *native_info),
{
    rpc::BlindedPayInfo {
        fee_base_msat: native_info.fee_base_msat,
        fee_proportional_millionths: native_info.fee_proportional_millionths,
        cltv_expiry_delta: native_info.cltv_expiry_delta as u32,
        htlc_minimum_msat: native_info.htlc_minimum_msat,
        htlc_maximum_msat: native_info.htlc_maximum_msat,
        features: Vec::new(),
    }
}

/// The RPC form of an introduction node.
pub fn convert_introduction_node(node: &IntroductionNode) -> (r: rpc::IntroductionNode)
    ensures
        introduction_converted(r, *node),
{
    match node {
        IntroductionNode::NodeId(pubkey) => rpc::IntroductionNode {
            node_id: Some(convert_public_key(pubkey)),
            directed_short_channel_id: None,
        },
        IntroductionNode::DirectedShortChannelId(direction, scid) => {
            let rpc_direction = match direction {
                Direction::NodeOne => rpc::DIRECTION_NODE_ONE,
                Direction::NodeTwo => rpc::DIRECTION_NODE_TWO,
            };
            rpc::IntroductionNode {
                node_id: None,
                directed_short_channel_id: Some(
                    rpc::DirectedShortChannelId { direction: rpc_direction, scid: *scid },
                ),
            }
        },
    }
}

/// The RPC form of the blinded path of a payment path.
pub fn convert_blinded_path(native_info: &BlindedPaymentPath) -> (r: rpc::BlindedPath)
    ensures
        path_converted(r, *native_info),
{
    let introduction_node = convert_introduction_node(&native_info.introduction_node);
    let hops = &native_info.blinded_hops;
    let mut blinded_hops: Vec<rpc::BlindedHop> = Vec::new();
    let mut i: usize = 0;
    while i < hops.len()
        invariant
            i <= hops@.len(),
            blinded_hops@.len() == i,
            forall|j: int| 0 <= j < i ==> hop_converted(#[trigger] blinded_hops@[j], hops@[j]),
        decreases hops@.len() - i,
    {
        let hop = &hops[i];
        blinded_hops.push(
            rpc::BlindedHop {
                blinded_node_id: Some(convert_public_key(&hop.blinded_node_id)),
                encrypted_payload: copy_bytes(&hop.encrypted_payload),
            },
        );
        i = i + 1;
    }
    rpc::BlindedPath {
        introduction_node: Some(introduction_node),
        blinding_point: Some(convert_public_key(&native_info.blinding_point)),
        blinded_hops,
    }
}

/// The RPC form of each payment path of an invoice, in order.
pub fn extract_payment_paths(invoice: &InvoiceData) -> (r: Vec<rpc::PaymentPaths>)
    ensures
        payment_paths_converted(r@, invoice.payment_paths@),
{
    let paths = &invoice.payment_paths;
    let mut r: Vec<rpc::PaymentPaths> = Vec::new();
    let mut i: usize = 0;
    while i < paths.len()
        invariant
            i <= paths@.len(),
            r@.len() == i,
            forall|j: int| 0 <= j < i ==> payment_path_converted(#[trigger] r@[j], paths@[j]),
        decreases paths@.len() - i,
    {
        let path = &paths[i];
        r.push(
            rpc::PaymentPaths {
                blinded_pay_info: Some(convert_blinded_pay_info(&path.payinfo)),
                blinded_path: Some(convert_blinded_path(path)),
            },
        );
        i = i + 1;
    }
    r
}

/// The readable contents of an invoice, for an RPC reply.
pub fn generate_bolt12_invoice_contents(invoice: &InvoiceData) -> (r: rpc::Bolt12InvoiceContents)
    ensures
        contents_converted(r, *invoice),
{
    rpc::Bolt12InvoiceContents {
        chain: invoice.chain.clone(),
        quantity: invoice.quantity,
        amount_msats: invoice.amount_msats,
        description: copy_text(&invoice.description),
        payment_hash: Some(rpc::PaymentHash { hash: copy_bytes(&invoice.payment_hash) }),
        created_at: invoice.created_at as i64,
        relative_expiry: invoice.relative_expiry,
        node_id: Some(convert_public_key(&invoice.signing_pubkey)),
        signature: invoice.signature.clone(),
        payment_paths: extract_payment_paths(invoice),
        features: convert_invoice_features(),
        payer_note: copy_text(&invoice.payer_note),
    }
}

/// The RPC form of an introduction node sets exactly one of its fields: the
/// node id for a node id, the directed short channel id for a channel.
pub proof fn lemma_introduction_node_exclusive(r: rpc::IntroductionNode, n: IntroductionNode)
    requires
        introduction_converted(r, n),
    ensures
        n is NodeId ==> r.node_id is Some && r.directed_short_channel_id is None,
        n is DirectedShortChannelId ==> r.node_id is None && r.directed_short_channel_id is Some,
        !(r.node_id is Some && r.directed_short_channel_id is Some),
{
}

/// The contents of an invoice list one payment path for each of the
/// invoice's, in the same order; none when it has none.
pub proof fn lemma_payment_paths_preserved(r: rpc::Bolt12InvoiceContents, inv: InvoiceData)
    requires
        contents_converted(r, inv),
    ensures
        r.payment_paths@.len() == inv.payment_paths@.len(),
        inv.payment_paths@.len() == 0 ==> r.payment_paths@.len() == 0,
        forall|i: int|
            0 <= i < r.payment_paths@.len() ==> payment_path_converted(
                #[trigger] r.payment_paths@[i],
                inv.payment_paths@[i],
            ),
{
}

} // verus!
