//! The gateway's configuration.
use vstd::prelude::*;
use crate::invoice::PublicKey;

verus! {

/// The 33-byte compressed form of the public key written in hex as `s`,
/// or none where `s` is no valid key.
pub uninterp spec fn public_key_from_text(s: Seq<char>) -> Option<Seq<u8>>;

/// Relies on `bitcoin::secp256k1::PublicKey::from_str` to parse a key given in
/// hex, and on `serialize` for its compressed 33-byte form, whose first byte
/// is 2 or 3 by the parity of the y-coordinate.
#[verifier::external_body]
fn parse_public_key(s: &str) -> (r: Option<Vec<u8>>)
    ensures
        r is Some <==> public_key_from_text(s@) is Some,
        r is Some ==> r->0@ == public_key_from_text(s@)->0 && r->0@.len() == 33 && (r->0@[0] == 2
            || r->0@[0] == 3),
{
    <bitcoin::secp256k1::PublicKey as std::str::FromStr>::from_str(s).ok().map(|k| k.serialize().to_vec())
}

/// The gateway: its node's key, and how to reach the node.
#[derive(Debug, Clone)]
pub struct LNDKServer {
    pub node_id: PublicKey,
    /// The certificate of the node's RPC endpoint.
    pub lnd_cert: String,
    /// The address of the node's RPC endpoint.
    pub address: String,
}

impl LNDKServer {
    /// A gateway for the node with key `node_id`, given in hex.
    pub fn new(node_id: &str, lnd_cert: String, address: String) -> (r: Self)
        requires
            public_key_from_text(node_id@) is Some,
        ensures
            r.node_id.bytes@ == public_key_from_text(node_id@)->0,
            r.node_id.wf(),
            r.lnd_cert@ == lnd_cert@,
            r.address@ == address@,
    {
        match parse_public_key(node_id) {
            Some(bytes) => LNDKServer { node_id: PublicKey { bytes }, lnd_cert, address },
            None => {
                // The precondition says the key parses.
                proof {
                    assert(false);
                }
                LNDKServer { node_id: PublicKey { bytes: Vec::new() }, lnd_cert, address }
            },
        }
    }

    /// A gateway for the node with key `node_id`, given in hex; none where
    /// that is no valid key.
    pub fn try_new(node_id: &str, lnd_cert: String, address: String) -> (r: Option<Self>)
        ensures
            r is Some <==> public_key_from_text(node_id@) is Some,
            r is Some ==> r->0.node_id.bytes@ == public_key_from_text(node_id@)->0
                && r->0.lnd_cert@ == lnd_cert@ && r->0.address@ == address@,
    {
        match parse_public_key(node_id) {
            Some(_) => Some(Self::new(node_id, lnd_cert, address)),
            None => None,
        }
    }
}

} // verus!
