//! The identity of a node: a secp256k1 key pair and the identifier that
//! is derived from the public key.
//!
//! Keys are held as bytes: the secret key as its 32 bytes, the public key
//! in the uncompressed form of 65 bytes. The identifier is `0x` followed
//! by the hexadecimal text of the last twenty bytes of the Keccak-256
//! digest of the public key without its leading byte.
use vstd::prelude::*;
use vstd::slice::slice_subrange;
use vstd::string::StringExecFns;
use crate::digest::{hex, hex_encode, keccak256, keccak256_digest};

verus! {

/// The uncompressed form of the public key that belongs to the secret key
/// `secret_key`, as the `secp256k1` crate derives it; `None` where the
/// bytes are no secret key.
pub uninterp spec fn secp256k1_public_key(secret_key: Seq<u8>) -> Option<Seq<u8>>;

/// How many bytes a secret key has.
pub const SECRET_KEY_LEN: usize = 32;

/// How many bytes a public key has in the uncompressed form.
pub const PUBLIC_KEY_LEN: usize = 65;

/// How many bytes of the digest of the public key make the identifier.
pub const NODE_ID_BYTES: usize = 20;

/// Calls `secp256k1::SecretKey::new` on the operating system's random
/// number generator. Trusted: the key has 32 bytes and is one that a
/// public key can be derived from. Which key comes out is left open.
#[verifier::external_body]
fn random_secret_key() -> (secret_key: Vec<u8>)
    ensures
        secret_key@.len() == SECRET_KEY_LEN,
        secp256k1_public_key(secret_key@) is Some,
{
    secp256k1::SecretKey::new(&mut rand::rngs::OsRng).secret_bytes().to_vec()
}

/// Calls `secp256k1::PublicKey::from_secret_key`. Trusted: for bytes that
/// are a secret key the result is the uncompressed form of its public key,
/// 65 bytes long; for other bytes there is none.
#[verifier::external_body]
fn derive_public_key(secret_key: &[u8]) -> (public_key: Option<Vec<u8>>)
    ensures
        match public_key {
            Some(key) => secp256k1_public_key(secret_key@) == Some(key@) && key@.len()
                == PUBLIC_KEY_LEN,
            None => secp256k1_public_key(secret_key@) is None,
        },
{
    match secp256k1::SecretKey::from_slice(secret_key) {
        Ok(key) => Some(
            secp256k1::PublicKey::from_secret_key(&secp256k1::Secp256k1::new(), &key)
                .serialize_uncompressed().to_vec(),
        ),
        Err(_) => None,
    }
}

/// The identifier of the node with the public key `public_key`.
pub open spec fn node_id_of(public_key: Seq<u8>) -> Seq<char> {
    let digest = keccak256(public_key.subrange(1, public_key.len() as int));
    "0x"@ + hex(digest.subrange(digest.len() - NODE_ID_BYTES, digest.len() as int))
}

/// The identity of a node.
pub struct NodeIdentity {
    pub node_id: String,
    pub public_key: Vec<u8>,
    pub token_balance: u64,
    pub secret_key: Vec<u8>,
}

impl NodeIdentity {
    /// The identity was derived from its secret key: the public key
    /// belongs to the secret key and the identifier to the public key.
    pub open spec fn derived(self) -> bool {
        &&& secp256k1_public_key(self.secret_key@) == Some(self.public_key@)
        &&& self.node_id@ == node_id_of(self.public_key@)
    }

    /// A fresh identity with a random key pair and no tokens.
    pub fn new() -> (identity: Self)
        ensures
            identity.derived(),
            identity.token_balance == 0,
            identity.secret_key@.len() == SECRET_KEY_LEN,
            identity.public_key@.len() == PUBLIC_KEY_LEN,
    {
        let secret_key = random_secret_key();
        match Self::from_secret_key(secret_key) {
            Some(identity) => identity,
            None => vstd::pervasive::unreached(),
        }
    }

    /// The identity that belongs to `secret_key`, with no tokens; `None`
    /// where the bytes are no secret key.
    pub fn from_secret_key(secret_key: Vec<u8>) -> (identity: Option<Self>)
        ensures
            match identity {
                Some(identity) => {
                    &&& identity.derived()
                    &&& identity.secret_key@ == secret_key@
                    &&& identity.token_balance == 0
                    &&& identity.public_key@.len() == PUBLIC_KEY_LEN
                },
                None => secp256k1_public_key(secret_key@) is None,
            },
    {
        match derive_public_key(secret_key.as_slice()) {
            None => None,
            Some(public_key) => {
                let node_id = Self::node_id_for(public_key.as_slice());
                Some(NodeIdentity { node_id, public_key, token_balance: 0, secret_key })
            },
        }
    }

    /// The identifier of the node with the public key `public_key`.
    pub fn node_id_for(public_key: &[u8]) -> (node_id: String)
        requires
            public_key@.len() >= 1,
        ensures
            node_id@ == node_id_of(public_key@),
    {
        let digest = keccak256_digest(slice_subrange(public_key, 1, public_key.len()));
        let tail = slice_subrange(digest.as_slice(), digest.len() - NODE_ID_BYTES, digest.len());
        let mut node_id = "0x".to_owned();
        node_id.append(hex_encode(tail).as_str());
        node_id
    }

    /// The public key, in the uncompressed form.
    pub fn get_public_key(&self) -> (public_key: Vec<u8>)
        ensures
            public_key@ == self.public_key@,
    {
        self.public_key.clone()
    }

    /// The tokens this node holds.
    pub fn get_token_balance(&self) -> (balance: u64)
        ensures
            balance == self.token_balance,
    {
        self.token_balance
    }

    /// Sets the tokens this node holds.
    pub fn update_token_balance(&mut self, new_balance: u64)
        ensures
            final(self).token_balance == new_balance,
            final(self).node_id == old(self).node_id,
            final(self).public_key == old(self).public_key,
            final(self).secret_key == old(self).secret_key,
    {
        self.token_balance = new_balance;
    }

    /// The identifier of this node.
    pub fn get_node_id(&self) -> (node_id: &str)
        ensures
            node_id@ == self.node_id@,
    {
        self.node_id.as_str()
    }
}

impl Default for NodeIdentity {
    fn default() -> (identity: Self)
        ensures
            identity.derived(),
            identity.token_balance == 0,
    {
        Self::new()
    }
}

} // verus!
