use vstd::prelude::*;
use bitcoin::bip32::{ChildNumber, Xpriv};
use secp256k1::SecretKey;
use crate::entropy::random_seed;
use crate::text::{decimal, hex_of, hex_string, numbered};

verus! {

#[verifier::external_type_specification]
#[verifier::external_body]
pub struct ExBip32Error(bitcoin::bip32::Error);

/// How many funded identities a run generates.
pub const IDENTITY_COUNT: usize = 2;

/// The flag that marks a hardened BIP-32 child index.
pub const HARDENED: u32 = 0x8000_0000;

/// The derivation path of a signing key: 44'/1'/0'/0/0 (testnet coin type,
/// external chain, first address).
pub open spec fn signing_path_spec() -> Seq<u32> {
    seq![(44 + HARDENED) as u32, (1 + HARDENED) as u32, HARDENED, 0u32, 0u32]
}

/// The 78-byte BIP-32 encoding of the regtest master key of `seed`, or
/// `None` where no valid key comes out of it.
pub uninterp spec fn master_key_of(seed: Seq<u8>) -> Option<Seq<u8>>;

/// The 32 secret bytes of the child at `path` of the extended private key
/// encoded as `master`, or `None` where derivation fails.
pub uninterp spec fn child_key_of(master: Seq<u8>, path: Seq<u32>) -> Option<Seq<u8>>;

/// The base58check text of `data`.
pub uninterp spec fn base58check_of(data: Seq<u8>) -> Seq<char>;

/// Relies on bitcoin's `Xpriv::new_master` (regtest) and `Xpriv::encode`: the
/// master extended private key of a seed, as its 78-byte encoding. It depends
/// on the seed alone.
#[verifier::external_body]
fn regtest_master_key(seed: &[u8; 32]) -> (r: Result<[u8; 78], bitcoin::bip32::Error>)
    ensures
        r is Ok <==> master_key_of(seed@) is Some,
        r matches Ok(k) ==> master_key_of(seed@) == Some(k@),
{
    Xpriv::new_master(bitcoin::Network::Regtest, seed).map(|k| k.encode())
}

/// Relies on bitcoin's `Xpriv::decode` and `Xpriv::derive_priv`: the secret
/// bytes of the child at `path`, each index read as `ChildNumber::from` reads a
/// `u32` (hardened when the top bit is set). It depends on its arguments alone.
#[verifier::external_body]
fn derive_child(master: &[u8; 78], path: &Vec<u32>) -> (r: Result<[u8; 32], bitcoin::bip32::Error>)
    ensures
        r is Ok <==> child_key_of(master@, path@) is Some,
        r matches Ok(k) ==> child_key_of(master@, path@) == Some(k@),
{
    let path: Vec<ChildNumber> = path.iter().map(|i| ChildNumber::from(*i)).collect();
    let key = Xpriv::decode(master)?;
    key.derive_priv(&secp256k1::Secp256k1::new(), &path).map(|k| k.private_key.secret_bytes())
}

/// Relies on secp256k1's `SecretKey::new` with rand's `thread_rng`: the bytes
/// of a fresh random secret key.
#[verifier::external_body]
fn random_secret_key() -> (r: [u8; 32]) {
    SecretKey::new(&mut rand::thread_rng()).secret_bytes()
}

/// Relies on bitcoin's `base58::encode_check`, which is also how `Xpriv`
/// displays its encoding.
#[verifier::external_body]
fn base58check(data: &[u8; 78]) -> (r: String)
    ensures
        r@ == base58check_of(data@),
{
    bitcoin::base58::encode_check(data)
}

/// The BIP-32 path from a master key to its signing key.
pub fn signing_path() -> (r: Vec<u32>)
    ensures
        r@ == signing_path_spec(),
{
    let r: Vec<u32> = vec![44u32 + HARDENED, 1u32 + HARDENED, HARDENED, 0u32, 0u32];
    assert(r@ =~= signing_path_spec());
    r
}

/// The keys of one funded identity, as plain bytes.
#[derive(Clone, Copy, Debug)]
pub struct Identity {
    /// The 78-byte BIP-32 encoding of the Bitcoin master key.
    pub bitcoin_hd_key: [u8; 78],
    /// The secret bytes of the master key's signing-path child: the key that
    /// receives funds.
    pub bitcoin_signing_key: [u8; 32],
    /// The Ethereum private key.
    pub ethereum_key: [u8; 32],
}

/// The identities of one run, in the order they were generated.
pub struct KeyMaterial {
    pub identities: Vec<Identity>,
}

/// The master key and signing key that a seed gives, where both derive.
pub open spec fn identity_of(seed: Seq<u8>) -> Option<(Seq<u8>, Seq<u8>)> {
    match master_key_of(seed) {
        Some(master) => match child_key_of(master, signing_path_spec()) {
            Some(signing) => Some((master, signing)),
            None => None,
        },
        None => None,
    }
}

/// Why key material could not be generated.
#[derive(Debug)]
pub enum KeyError {
    /// The master key of a seed, or a child of it, could not be derived.
    Derivation(bitcoin::bip32::Error),
}

/// The env-file name under which the Bitcoin key of identity `i` is stored.
pub open spec fn bitcoin_key_name(i: nat) -> Seq<char> {
    "BITCOIN_HD_KEY_"@ + decimal(i)
}

/// The env-file name under which the Ethereum key of identity `i` is stored.
pub open spec fn ethereum_key_name(i: nat) -> Seq<char> {
    "ETHEREUM_KEY_"@ + decimal(i)
}

/// The env-file entries for the given key texts: first the Bitcoin keys, then
/// the Ethereum keys, each under its own numbered name.
pub open spec fn env_entries_spec(bitcoin: Seq<Seq<char>>, ethereum: Seq<Seq<char>>) -> Seq<(Seq<char>, Seq<char>)> {
    Seq::new(bitcoin.len(), |i: int| (bitcoin_key_name(i as nat), bitcoin[i]))
        + Seq::new(ethereum.len(), |i: int| (ethereum_key_name(i as nat), ethereum[i]))
}

pub open spec fn texts(v: Seq<String>) -> Seq<Seq<char>> {
    v.map_values(|s: String| s@)
}

/// The text of each identity's master key.
pub open spec fn bitcoin_texts(ids: Seq<Identity>) -> Seq<Seq<char>> {
    Seq::new(ids.len(), |i: int| base58check_of(ids[i].bitcoin_hd_key@))
}

/// The hex of each identity's Ethereum key.
pub open spec fn ethereum_texts(ids: Seq<Identity>) -> Seq<Seq<char>> {
    Seq::new(ids.len(), |i: int| hex_of(ids[i].ethereum_key@))
}

pub open spec fn entries_view(entries: Seq<(String, String)>) -> Seq<(Seq<char>, Seq<char>)> {
    entries.map_values(|e: (String, String)| (e.0@, e.1@))
}

/// Builds the env-file entries that hand the key texts to the containers.
pub fn env_entries(bitcoin: &Vec<String>, ethereum: &Vec<String>) -> (r: Vec<(String, String)>)
    ensures
        entries_view(r@) == env_entries_spec(texts(bitcoin@), texts(ethereum@)),
{
    let mut r: Vec<(String, String)> = Vec::new();
    let mut i: usize = 0;
    while i < bitcoin.len()
        invariant
            i <= bitcoin@.len(),
            entries_view(r@) =~= Seq::new(i as nat, |k: int| (bitcoin_key_name(k as nat), texts(bitcoin@)[k])),
        decreases bitcoin@.len() - i,
    {
        let name = numbered("BITCOIN_HD_KEY_", i);
        let ghost before = r@;
        r.push((name, bitcoin[i].clone()));
        assert(entries_view(r@) =~= entries_view(before).push((bitcoin_key_name(i as nat), texts(bitcoin@)[i as int])));
        i = i + 1;
    }
    let mut j: usize = 0;
    while j < ethereum.len()
        invariant
            j <= ethereum@.len(),
            entries_view(r@) =~= Seq::new(bitcoin@.len(), |k: int| (bitcoin_key_name(k as nat), texts(bitcoin@)[k]))
                + Seq::new(j as nat, |k: int| (ethereum_key_name(k as nat), texts(ethereum@)[k])),
        decreases ethereum@.len() - j,
    {
        let name = numbered("ETHEREUM_KEY_", j);
        let ghost before = r@;
        r.push((name, ethereum[j].clone()));
        assert(entries_view(r@) =~= entries_view(before).push((ethereum_key_name(j as nat), texts(ethereum@)[j as int])));
        j = j + 1;
    }
    r
}

impl KeyMaterial {
    /// The identities of the given seeds and Ethereum keys, pair by pair: a
    /// regtest master key from each seed and its child at `signing_path`.
    /// Fails exactly when one of the seeds gives no such keys.
    pub fn from_seeds(seeds: &Vec<[u8; 32]>, ethereum_keys: &Vec<[u8; 32]>) -> (r: Result<KeyMaterial, KeyError>)
        requires
            seeds@.len() == ethereum_keys@.len(),
        ensures
            r is Ok <==> forall|i: int| 0 <= i < seeds@.len() ==> (#[trigger] identity_of(seeds@[i]@)) is Some,
            r matches Ok(m) ==> {
                &&& m.identities@.len() == seeds@.len()
                &&& forall|i: int| 0 <= i < seeds@.len() ==> {
                    &&& #[trigger] identity_of(seeds@[i]@)
                        == Some((m.identities@[i].bitcoin_hd_key@, m.identities@[i].bitcoin_signing_key@))
                    &&& m.identities@[i].ethereum_key == ethereum_keys@[i]
                }
            },
    {
        let path = signing_path();
        let mut identities: Vec<Identity> = Vec::new();
        let mut i: usize = 0;
        while i < seeds.len()
            invariant
                path@ == signing_path_spec(),
                seeds@.len() == ethereum_keys@.len(),
                i <= seeds@.len(),
                identities@.len() == i,
                forall|k: int| 0 <= k < i ==> {
                    &&& #[trigger] identity_of(seeds@[k]@)
                        == Some((identities@[k].bitcoin_hd_key@, identities@[k].bitcoin_signing_key@))
                    &&& identities@[k].ethereum_key == ethereum_keys@[k]
                },
            decreases seeds@.len() - i,
        {
            let master = match regtest_master_key(&seeds[i]) {
                Ok(k) => k,
                Err(e) => {
                    assert(identity_of(seeds@[i as int]@) is None);
                    return Err(KeyError::Derivation(e));
                },
            };
            let signing = match derive_child(&master, &path) {
                Ok(k) => k,
                Err(e) => {
                    assert(identity_of(seeds@[i as int]@) is None);
                    return Err(KeyError::Derivation(e));
                },
            };
            identities.push(Identity {
                bitcoin_hd_key: master,
                bitcoin_signing_key: signing,
                ethereum_key: ethereum_keys[i],
            });
            i = i + 1;
        }
        Ok(KeyMaterial { identities })
    }

    /// Generates `IDENTITY_COUNT` identities, each from fresh entropy: a
    /// random 32-byte seed for the Bitcoin keys and a random Ethereum key.
    pub fn generate() -> (r: Result<KeyMaterial, KeyError>)
        ensures
            r matches Ok(m) ==> m.identities@.len() == IDENTITY_COUNT,
    {
        let mut seeds: Vec<[u8; 32]> = Vec::new();
        let mut ethereum_keys: Vec<[u8; 32]> = Vec::new();
        let mut i: usize = 0;
        while i < IDENTITY_COUNT
            invariant
                i <= IDENTITY_COUNT,
                seeds@.len() == i,
                ethereum_keys@.len() == i,
            decreases IDENTITY_COUNT - i,
        {
            seeds.push(random_seed());
            ethereum_keys.push(random_secret_key());
            i = i + 1;
        }
        KeyMaterial::from_seeds(&seeds, &ethereum_keys)
    }

    /// The env-file entries of this key material: `BITCOIN_HD_KEY_<i>` holds
    /// the base58check text of identity `i`'s master key, `ETHEREUM_KEY_<i>`
    /// the hex of its Ethereum key, Bitcoin entries first, each in identity
    /// order.
    pub fn env_entries(&self) -> (r: Vec<(String, String)>)
        ensures
            entries_view(r@) == env_entries_spec(bitcoin_texts(self.identities@), ethereum_texts(self.identities@)),
    {
        let n = self.identities.len();
        let mut bitcoin: Vec<String> = Vec::new();
        let mut ethereum: Vec<String> = Vec::new();
        let mut i: usize = 0;
        while i < n
            invariant
                n == self.identities@.len(),
                i <= n,
                texts(bitcoin@) =~= bitcoin_texts(self.identities@).subrange(0, i as int),
                texts(ethereum@) =~= ethereum_texts(self.identities@).subrange(0, i as int),
            decreases n - i,
        {
            let id = &self.identities[i];
            let b = base58check(&id.bitcoin_hd_key);
            let e = hex_string(&id.ethereum_key);
            let ghost (b0, e0) = (bitcoin@, ethereum@);
            bitcoin.push(b);
            ethereum.push(e);
            assert(texts(bitcoin@) =~= texts(b0).push(b@));
            assert(texts(ethereum@) =~= texts(e0).push(e@));
            i = i + 1;
        }
        assert(texts(bitcoin@) =~= bitcoin_texts(self.identities@));
        assert(texts(ethereum@) =~= ethereum_texts(self.identities@));
        env_entries(&bitcoin, &ethereum)
    }
}

} // verus!
