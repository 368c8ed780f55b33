//! The service configuration: the trusted notary key and the signing key.

use vstd::prelude::*;
use crate::bytes::{be_value, zeros};
use crate::hex::{decode_hex, hex_decoding};
use crate::text::chars_of;

verus! {

/// The signature algorithm of a notary key.
#[derive(Debug, Clone, Copy, PartialEq, Eq, Structural)]
pub enum KeyAlg {
    K256,
    P256,
    /// Another algorithm, by its numeric identifier.
    Other(u8),
}

/// A notary's verifying key: its algorithm and raw key bytes.
#[derive(Debug, Clone)]
pub struct NotaryKey {
    pub alg: KeyAlg,
    pub data: Vec<u8>,
}

/// Two notary keys are the same key, byte for byte.
pub open spec fn same_key(a: NotaryKey, b: NotaryKey) -> bool {
    a.alg == b.alg && a.data@ == b.data@
}

/// Compares two notary keys byte for byte.
pub fn keys_equal(a: &NotaryKey, b: &NotaryKey) -> (r: bool)
    ensures
        r == same_key(*a, *b),
{
    if a.alg != b.alg || a.data.len() != b.data.len() {
        return false;
    }
    let mut i: usize = 0;
    while i < a.data.len()
        invariant
            i <= a.data@.len() == b.data@.len(),
            forall|k: int| 0 <= k < i ==> a.data@[k] == b.data@[k],
        decreases a.data.len() - i,
    {
        if a.data[i] != b.data[i] {
            return false;
        }
        i = i + 1;
    }
    assert(a.data@ =~= b.data@);
    true
}

/// The service configuration.
pub struct Config {
    /// The notary key that presentations must be signed with.
    pub notary_key: NotaryKey,
    /// The service's secret signing scalar, 32 big-endian bytes.
    pub private_key: [u8; 32],
    pub port: String,
}

/// Why the configuration could not be built.
#[derive(Debug, Clone, Copy, PartialEq, Eq, Structural)]
pub enum ConfigError {
    /// The notary key algorithm is neither `K256` nor `P256`.
    UnsupportedKeyAlg,
    /// The notary key is not hexadecimal.
    InvalidNotaryKeyHex,
    /// The private key is not hexadecimal.
    InvalidPrivateKeyHex,
    /// The private key is not a valid secp256k1 scalar.
    InvalidPrivateKey,
}

/// The algorithm that a configuration names.
pub open spec fn key_alg_named(name: Seq<char>) -> Option<KeyAlg> {
    if name == seq!['K', '2', '5', '6'] {
        Some(KeyAlg::K256)
    } else if name == seq!['P', '2', '5', '6'] {
        Some(KeyAlg::P256)
    } else {
        None
    }
}

fn parse_key_alg(name: &str) -> (r: Option<KeyAlg>)
    ensures
        r == key_alg_named(name@),
{
    let c = chars_of(name);
    if c.len() == 4 && c[1] == '2' && c[2] == '5' && c[3] == '6' {
        if c[0] == 'K' {
            assert(c@ =~= seq!['K', '2', '5', '6']);
            return Some(KeyAlg::K256);
        } else if c[0] == 'P' {
            assert(c@ =~= seq!['P', '2', '5', '6']);
            return Some(KeyAlg::P256);
        }
    }
    assert(c@ != seq!['K', '2', '5', '6'] ==> c@.len() != 4 || c@[0] != 'K' || c@[1] != '2' || c@[2]
        != '5' || c@[3] != '6');
    None
}

/// The order of the secp256k1 group.
pub open spec fn secp256k1_order() -> nat {
    let word: nat = 0x1_0000_0000_0000_0000;
    0xFFFF_FFFF_FFFF_FFFF_FFFF_FFFF_FFFF_FFFEnat * (word * word) + 0xBAAE_DCE6_AF48_A03B_BFD2_5E8C_D036_4141nat
}

/// The secret scalar that key bytes give, as 32 big-endian bytes: 24 to 32
/// bytes, padded with leading zeros, of a value from 1 to below the group order.
pub open spec fn secret_scalar_of(bytes: Seq<u8>) -> Option<Seq<u8>> {
    if 24 <= bytes.len() <= 32 {
        let padded = zeros((32 - bytes.len()) as nat) + bytes;
        if 0 < be_value(padded) < secp256k1_order() {
            Some(padded)
        } else {
            None
        }
    } else {
        None
    }
}

/// Relies on `PrivateKeySigner::from_slice` (through `SecretKey::from_slice`)
/// and its `to_bytes`: slices of 24 to 32 bytes, padded with leading zeros,
/// holding a nonzero value below the group order.
#[verifier::external_body]
fn secret_scalar(bytes: &[u8]) -> (r: Option<[u8; 32]>)
    ensures
        match r {
            Some(k) => secret_scalar_of(bytes@) == Some(k@),
            None => secret_scalar_of(bytes@) is None,
        },
{
    alloy::signers::local::PrivateKeySigner::from_slice(bytes).ok().map(|s| s.to_bytes().0)
}

/// The 20-byte address of the signer whose scalar is `private_key`; `None`
/// when the scalar is not a valid key.
pub uninterp spec fn address_of_key(private_key: Seq<u8>) -> Option<[u8; 20]>;

/// Relies on `PrivateKeySigner::from_bytes` and its `address`: the 20-byte
/// address of the signer for a scalar, if the scalar is valid; a function of
/// the scalar alone.
#[verifier::external_body]
pub fn signer_address(private_key: &[u8; 32]) -> (r: Option<[u8; 20]>)
    ensures
        r == address_of_key(private_key@),
{
    let key = alloy::primitives::B256::new(*private_key);
    alloy::signers::local::PrivateKeySigner::from_bytes(&key).ok().map(|s| s.address().0.0)
}

/// Builds the configuration from its textual settings.
pub fn init(notary_key_alg: &str, notary_key_hex: &str, private_key_hex: &str, port: String) -> (r:
    Result<Config, ConfigError>)
    ensures
        key_alg_named(notary_key_alg@) is None ==> r == Err::<Config, ConfigError>(
            ConfigError::UnsupportedKeyAlg,
        ),
        key_alg_named(notary_key_alg@) is Some && hex_decoding(notary_key_hex@) is None ==> r
            == Err::<Config, ConfigError>(ConfigError::InvalidNotaryKeyHex),
        key_alg_named(notary_key_alg@) is Some && hex_decoding(notary_key_hex@) is Some
            && hex_decoding(private_key_hex@) is None ==> r == Err::<Config, ConfigError>(
            ConfigError::InvalidPrivateKeyHex,
        ),
        key_alg_named(notary_key_alg@) is Some && hex_decoding(notary_key_hex@) is Some
            && hex_decoding(private_key_hex@) is Some ==> match secret_scalar_of(
            hex_decoding(private_key_hex@)->0,
        ) {
            None => r == Err::<Config, ConfigError>(ConfigError::InvalidPrivateKey),
            Some(k) => r matches Ok(c) && {
                &&& Some(c.notary_key.alg) == key_alg_named(notary_key_alg@)
                &&& Some(c.notary_key.data@) == hex_decoding(notary_key_hex@)
                &&& c.private_key@ == k
                &&& c.port@ == port@
            },
        },
{
    let alg = match parse_key_alg(notary_key_alg) {
        Some(a) => a,
        None => {
            return Err(ConfigError::UnsupportedKeyAlg);
        },
    };
    let data = match decode_hex(notary_key_hex) {
        Some(d) => d,
        None => {
            return Err(ConfigError::InvalidNotaryKeyHex);
        },
    };
    let key = match decode_hex(private_key_hex) {
        Some(k) => k,
        None => {
            return Err(ConfigError::InvalidPrivateKeyHex);
        },
    };
    let private_key = match secret_scalar(key.as_slice()) {
        Some(k) => k,
        None => {
            return Err(ConfigError::InvalidPrivateKey);
        },
    };
    Ok(Config { notary_key: NotaryKey { alg, data }, private_key, port })
}

} // verus!
