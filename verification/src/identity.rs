//! The one Ed25519 key pair of a node, which names it on the gossip bus
//! and pays for it on the chain.

use vstd::prelude::*;

use crate::chain::{accepts_key_pair, is_key_pair, public_half, public_half_of};

verus! {

/// A key pair as `libp2p` holds it.
#[verifier::external_type_specification]
#[verifier::external_body]
pub struct ExIdentityKeypair(libp2p::identity::Keypair);

/// The length of an Ed25519 public key in bytes.
pub const PUBLIC_KEY_LEN: usize = 32;

/// The length in bytes of the peer identifier of an Ed25519 public key.
pub const PEER_ID_LEN: usize = 38;

/// What leads the peer identifier of an Ed25519 public key: the code of
/// the identity hash and the length 36 of what it wraps, then the key's
/// protobuf frame, which is the key type 1 under tag 8 and the length 32
/// of the key under tag 18.
pub open spec fn peer_id_lead() -> Seq<u8> {
    seq![0u8, 36u8, 8u8, 1u8, 18u8, 32u8]
}

/// The bytes of the peer identifier of the Ed25519 public key `key`.
pub open spec fn peer_id_bytes(key: Seq<u8>) -> Seq<u8> {
    peer_id_lead() + key
}

/// Whether `id` has the form of the peer identifier of an Ed25519 public
/// key.
pub open spec fn is_key_peer_id(id: Seq<u8>) -> bool {
    id.len() == PEER_ID_LEN && peer_id_lead().is_prefix_of(id)
}

/// The public key that the peer identifier `id` holds.
pub open spec fn key_of_peer_id(id: Seq<u8>) -> Seq<u8>
    recommends
        is_key_peer_id(id),
{
    id.skip(peer_id_lead().len() as int)
}

/// Whether the 32 bytes `key` are an Ed25519 public key, as
/// `ed25519::PublicKey::try_from_bytes` of `libp2p` judges it.
pub uninterp spec fn is_public_key(key: Seq<u8>) -> bool;

/// The peer identifier of the Ed25519 public key `key` as text, which is
/// `PeerId::to_base58` of `libp2p`.
pub uninterp spec fn peer_id_text(key: Seq<u8>) -> Seq<char>;

/// The 32 bytes that the text `address` stands for as an account address,
/// as `Pubkey::from_str` of `solana_pubkey` reads it; nothing where the
/// text is no address.
pub uninterp spec fn address_of_text(address: Seq<char>) -> Option<Seq<u8>>;

/// Makes a fresh key pair through `Keypair::generate_ed25519` of `libp2p`.
/// Nothing is claimed of it.
#[verifier::external_body]
pub(crate) fn fresh_identity() -> (identity: libp2p::identity::Keypair) {
    libp2p::identity::Keypair::generate_ed25519()
}

/// The 64 bytes of `identity`, secret half first, through
/// `Keypair::try_into_ed25519` and `ed25519::Keypair::to_bytes` of
/// `libp2p`; nothing where the key pair is of another kind. Nothing is
/// claimed of them.
#[verifier::external_body]
pub(crate) fn identity_bytes(identity: &libp2p::identity::Keypair) -> (bytes: Option<[u8; 64]>) {
    match identity.clone().try_into_ed25519() {
        Ok(pair) => Some(pair.to_bytes()),
        Err(_) => None,
    }
}

/// The name of the node that holds `identity`: the peer identifier of its
/// public key as text, through `PublicKey::to_peer_id` and
/// `PeerId::to_base58` of `libp2p`. Nothing is claimed of it.
#[verifier::external_body]
pub(crate) fn identity_name(identity: &libp2p::identity::Keypair) -> (name: String) {
    identity.public().to_peer_id().to_base58()
}

/// Derives the peer identifier of a public key through
/// `ed25519::PublicKey::try_from_bytes`, `PeerId::from` and
/// `PeerId::to_bytes` of `libp2p`. The first accepts the bytes exactly
/// where they are a key. The identifier of a key is an identity hash of
/// the key's protobuf frame, because that frame, at 36 bytes, is short
/// enough to be held as it is: six fixed bytes, then the key.
#[verifier::external_body]
pub(crate) fn derive_peer_id(key: &[u8; 32]) -> (id: Option<Vec<u8>>)
    ensures
        id is Some == is_public_key(key@),
        id is Some ==> id->0@ == peer_id_bytes(key@),
{
    match libp2p::identity::ed25519::PublicKey::try_from_bytes(key) {
        Ok(key) => Some(libp2p::PeerId::from(libp2p::identity::PublicKey::from(key)).to_bytes()),
        Err(_) => None,
    }
}

/// Derives the peer identifier of a public key as text, through
/// `ed25519::PublicKey::try_from_bytes`, `PeerId::from` and
/// `PeerId::to_base58` of `libp2p`. The first accepts the bytes exactly
/// where they are a key.
#[verifier::external_body]
pub(crate) fn derive_peer_id_text(key: &[u8; 32]) -> (text: Option<String>)
    ensures
        text is Some == is_public_key(key@),
        text is Some ==> text->0@ == peer_id_text(key@),
{
    match libp2p::identity::ed25519::PublicKey::try_from_bytes(key) {
        Ok(key) => Some(libp2p::PeerId::from(libp2p::identity::PublicKey::from(key)).to_base58()),
        Err(_) => None,
    }
}

/// Reads an account address from text through `Pubkey::from_str` of
/// `solana_pubkey`, which decodes base 58 into exactly 32 bytes or
/// refuses.
#[verifier::external_body]
pub(crate) fn read_address(address: &str) -> (key: Option<[u8; 32]>)
    ensures
        match key {
            Some(bytes) => address_of_text(address@) == Some(bytes@),
            None => address_of_text(address@) is None,
        },
{
    match <solana_pubkey::Pubkey as std::str::FromStr>::from_str(address) {
        Ok(key) => Some(key.to_bytes()),
        Err(_) => None,
    }
}

/// The one key pair of a node: in the form in which it serves on the
/// gossip bus, and as the 64 bytes with which the node signs and pays on
/// the chain, together with the name under which its holder goes on the
/// bus. The bytes are always a key pair of the chain, and the name is
/// always the peer identifier of their public half.
pub struct NodeKeys {
    identity: libp2p::identity::Keypair,
    key_pair: [u8; 64],
    name: String,
}

/// Whether the 64 bytes `key_pair` and the name `name` go together: the
/// bytes are a key pair of the chain, their public half is an Ed25519
/// public key, and the name is the peer identifier of that key.
pub open spec fn keys_go_by(key_pair: Seq<u8>, name: Seq<char>) -> bool {
    &&& is_key_pair(key_pair)
    &&& is_public_key(public_half(key_pair))
    &&& name == peer_id_text(public_half(key_pair))
}

impl NodeKeys {
    /// The name under which the holder of the keys goes on the gossip bus.
    pub closed spec fn peer_name(&self) -> Seq<char> {
        self.name@
    }

    /// The 64 bytes of the key pair, secret half first.
    pub closed spec fn key_pair_bytes(&self) -> Seq<u8> {
        self.key_pair@
    }

    /// The bytes of the public key, which are also the bytes of the
    /// account that pays on the chain.
    pub open spec fn key_bytes(&self) -> Seq<u8> {
        public_half(self.key_pair_bytes())
    }

    /// The bytes and the name go together.
    #[verifier::type_invariant]
    closed spec fn name_is_of_key(&self) -> bool {
        keys_go_by(self.key_pair@, self.name@)
    }

    /// Puts the key pair of the gossip bus together with the 64 bytes
    /// that it is made of and the name that it goes by. They are taken
    /// exactly where the bytes and the name go together, and refused
    /// otherwise.
    pub fn new(identity: libp2p::identity::Keypair, key_pair: [u8; 64], name: String) -> (keys: Option<
        NodeKeys,
    >)
        ensures
            keys is Some == keys_go_by(key_pair@, name@),
            keys is Some ==> keys->0.peer_name() == name@ && keys->0.key_pair_bytes() == key_pair@,
    {
        if !accepts_key_pair(&key_pair) {
            return None;
        }
        match derive_peer_id_text(&public_half_of(&key_pair)) {
            Some(derived) => {
                if derived == name {
                    Some(NodeKeys { identity, key_pair, name })
                } else {
                    None
                }
            },
            None => None,
        }
    }

    /// The name under which the holder of the keys goes on the gossip bus:
    /// the peer identifier of the public key.
    pub fn name(&self) -> (name: &String)
        ensures
            name@ == self.peer_name(),
            keys_go_by(self.key_pair_bytes(), self.peer_name()),
    {
        proof {
            use_type_invariant(self);
        }
        &self.name
    }

    /// The public key, which is an Ed25519 key.
    pub fn public_key(&self) -> (key: [u8; 32])
        ensures
            key@ == self.key_bytes(),
            keys_go_by(self.key_pair_bytes(), self.peer_name()),
    {
        proof {
            use_type_invariant(self);
        }
        public_half_of(&self.key_pair)
    }

    /// The 64 bytes of the key pair, secret half first.
    pub fn key_pair(&self) -> (key_pair: [u8; 64])
        ensures
            key_pair@ == self.key_pair_bytes(),
            keys_go_by(self.key_pair_bytes(), self.peer_name()),
    {
        proof {
            use_type_invariant(self);
        }
        self.key_pair
    }

    /// The key pair in the form that serves on the gossip bus.
    pub fn identity(&self) -> (identity: &libp2p::identity::Keypair) {
        &self.identity
    }

    /// The key pair of the gossip bus, the 64 bytes and the name, each by
    /// itself.
    pub fn into_parts(self) -> (parts: (libp2p::identity::Keypair, [u8; 64], String))
        ensures
            parts.1@ == self.key_pair_bytes(),
            parts.2@ == self.peer_name(),
            keys_go_by(parts.1@, parts.2@),
    {
        proof {
            use_type_invariant(&self);
        }
        let NodeKeys { identity, key_pair, name } = self;
        (identity, key_pair, name)
    }
}

/// The peer identifier of the public key `key`; nothing where the bytes
/// are no Ed25519 public key.
pub fn peer_id_of_public_key(key: &[u8; 32]) -> (id: Option<Vec<u8>>)
    ensures
        id is Some == is_public_key(key@),
        id is Some ==> id->0@ == peer_id_bytes(key@) && is_key_peer_id(id->0@),
{
    let id = derive_peer_id(key);
    proof {
        assert(peer_id_lead().len() == 6);
        assert(peer_id_lead().is_prefix_of(peer_id_bytes(key@)));
    }
    id
}

/// The public key that the peer identifier `id` holds; nothing where `id`
/// has not the form of the identifier of an Ed25519 public key.
pub fn public_key_of_peer_id(id: &Vec<u8>) -> (key: Option<Vec<u8>>)
    ensures
        key is Some == is_key_peer_id(id@),
        key is Some ==> key->0@ == key_of_peer_id(id@) && key->0@.len() == PUBLIC_KEY_LEN,
{
    if id.len() != PEER_ID_LEN {
        return None;
    }
    if id[0] != 0 || id[1] != 36 || id[2] != 8 || id[3] != 1 || id[4] != 18 || id[5] != 32 {
        proof {
            let lead = peer_id_lead();
            if lead.is_prefix_of(id@) {
                assert(forall|i: int| 0 <= i < 6 ==> id@[i] == lead[i]);
                assert(id@[0] == lead[0] && id@[1] == lead[1] && id@[2] == lead[2] && id@[3]
                    == lead[3] && id@[4] == lead[4] && id@[5] == lead[5]);
            }
        }
        return None;
    }
    let mut key: Vec<u8> = Vec::new();
    let mut index: usize = 6;
    while index < PEER_ID_LEN
        invariant
            6 <= index <= PEER_ID_LEN,
            id@.len() == PEER_ID_LEN,
            key@ == id@.subrange(6, index as int),
        decreases PEER_ID_LEN - index,
    {
        key.push(id[index]);
        assert(id@.subrange(6, index as int).push(id@[index as int]) =~= id@.subrange(
            6,
            index + 1,
        ));
        index += 1;
    }
    proof {
        assert(peer_id_lead().len() == 6);
        assert(peer_id_lead() =~= id@.subrange(0, 6));
        assert(key@ =~= id@.skip(6));
    }
    Some(key)
}

/// The name under which the holder of the account `address` goes on the
/// gossip bus: the peer identifier, as text, of the key that the address
/// stands for; nothing where the text is no address or the address is no
/// Ed25519 public key.
pub open spec fn peer_name_of_address(address: Seq<char>) -> Option<Seq<char>> {
    match address_of_text(address) {
        Some(key) => if is_public_key(key) {
            Some(peer_id_text(key))
        } else {
            None
        },
        None => None,
    }
}

/// The name under which the holder of the account `address` goes on the
/// gossip bus; nothing where the text is no address or the address is no
/// Ed25519 public key.
pub fn solana_public_key_str_to_peer_id(address: &str) -> (name: Option<String>)
    ensures
        match name {
            Some(text) => peer_name_of_address(address@) == Some(text@),
            None => peer_name_of_address(address@) is None,
        },
{
    match read_address(address) {
        Some(key) => derive_peer_id_text(&key),
        None => None,
    }
}

/// The peer identifier holds the key that it was made of.
pub proof fn peer_id_holds_its_key(key: Seq<u8>)
    ensures
        key_of_peer_id(peer_id_bytes(key)) == key,
        key.len() == PUBLIC_KEY_LEN ==> is_key_peer_id(peer_id_bytes(key)),
{
    assert(peer_id_lead().len() == 6);
    assert(peer_id_bytes(key).skip(6) =~= key);
    assert(peer_id_lead().is_prefix_of(peer_id_bytes(key)));
}

/// An identifier of the right form is the identifier of the key that it
/// holds, and that key has the length of a public key.
pub proof fn key_makes_its_peer_id(id: Seq<u8>)
    requires
        is_key_peer_id(id),
    ensures
        peer_id_bytes(key_of_peer_id(id)) == id,
        key_of_peer_id(id).len() == PUBLIC_KEY_LEN,
{
    assert(peer_id_lead().len() == 6);
    assert(peer_id_bytes(key_of_peer_id(id)) =~= id);
}

/// Two keys with one peer identifier are one key. Together with the two
/// laws above: the keys of 32 bytes and the identifiers of the right form
/// match one to one.
pub proof fn one_key_per_peer_id(first: Seq<u8>, second: Seq<u8>)
    requires
        peer_id_bytes(first) == peer_id_bytes(second),
    ensures
        first == second,
{
    peer_id_holds_its_key(first);
    peer_id_holds_its_key(second);
}

} // verus!
