use vstd::prelude::*;

verus! {

/// Nonce and authentication tag (both hex text) of the wrapped master key
/// held in one slot.
pub struct KeyParams {
    pub nonce: String,
    pub tag: String,
}

/// One key-wrapping record of the vault header.
///
/// Only slots of type `1` (password slots) are handled; the key-encryption
/// key of such a slot is derived from the password with scrypt over `salt`
/// and the cost parameters `n`, `r` and `p`.
pub struct Slot {
    pub slot_type: u8,
    pub salt: String,
    pub n: u32,
    pub r: u32,
    pub p: u32,
    /// Hex ciphertext of the wrapped master key, without its tag.
    pub key: String,
    pub key_params: KeyParams,
}

/// Nonce and authentication tag (both hex text) of the main payload.
pub struct HeaderParams {
    pub nonce: String,
    pub tag: String,
}

pub struct Header {
    pub slots: Vec<Slot>,
    pub params: HeaderParams,
}

/// A parsed vault document: its header and the base64 text of the
/// encrypted payload.
pub struct Vault {
    pub header: Header,
    pub db: String,
}

} // verus!
