use vstd::prelude::*;
use vstd::utf8::{decode_utf8, valid_utf8};
use crate::crypto::{
    aes256gcm_open, aes256gcm_opened, exact_log2, log2_of_power, scrypt_derive, scrypt_key,
    scrypt_params_valid,
};
use crate::encoding::{base64_decode, base64_decoded, hex_bytes, hex_decode, is_hex_text};
use crate::models::{Header, Slot, Vault};

verus! {

/// Slot type of a password slot, the only kind this library unwraps.
pub const PASSWORD_SLOT: u8 = 1;

/// Length in bytes of the master key and of a key-encryption key.
pub const KEY_LEN: usize = 32;

/// Length in bytes of an AES-GCM nonce.
pub const NONCE_LEN: usize = 12;

/// Length in bytes of an AES-GCM authentication tag.
pub const TAG_LEN: usize = 16;

/// Why one slot did not give the master key. Such a failure is never fatal:
/// the next slot is tried.
#[derive(PartialEq, Eq, Structural, Debug, Clone, Copy)]
pub enum SlotError {
    /// Not a password slot.
    UnsupportedType,
    /// The salt is not hex text.
    InvalidSalt,
    /// `n` is not a power of two, or scrypt refuses `(log2(n), r, p)`.
    InvalidKdfParams,
    /// The nonce is not hex text of 12 bytes.
    InvalidNonce,
    /// The wrapped key is not hex text.
    InvalidKey,
    /// The tag is not hex text of 16 bytes.
    InvalidTag,
    /// The tag does not authenticate under the derived key (wrong password
    /// or corrupt slot).
    AuthenticationFailed,
    /// The slot authenticates but does not hold a 32-byte key.
    InvalidKeyLength,
}

/// Why a vault could not be opened.
#[derive(PartialEq, Eq, Structural, Debug, Clone, Copy)]
pub enum DecryptError {
    /// No slot unwraps the master key with this password: a wrong password
    /// and a corrupt vault are deliberately not told apart.
    NoMatchingSlot,
    /// The payload is not standard base64.
    InvalidEncoding,
    /// The payload nonce is not hex text of 12 bytes.
    InvalidNonce,
    /// The payload tag is not hex text of 16 bytes.
    InvalidTag,
    /// The master key does not authenticate the payload.
    PayloadAuthenticationFailed,
    /// The authenticated payload is not UTF-8 text.
    InvalidPlaintextEncoding,
}

/// The scrypt cost exponent of a slot: the base-2 logarithm of `n`.
pub open spec fn slot_log_n(slot: Slot) -> Option<u8> {
    match exact_log2(slot.n as nat) {
        Some(k) => Some(k as u8),
        None => None,
    }
}

/// The key-encryption key that a password gives for a slot whose salt is
/// hex text and whose cost parameters are valid.
pub open spec fn slot_kek(slot: Slot, password: Seq<u8>) -> Seq<u8> {
    scrypt_key(password, hex_bytes(slot.salt@), slot_log_n(slot)->Some_0, slot.r, slot.p, KEY_LEN)
}

/// The bytes handed to AES-GCM for a slot: the wrapped key followed by its tag.
pub open spec fn slot_sealed(slot: Slot) -> Seq<u8> {
    hex_bytes(slot.key@) + hex_bytes(slot.key_params.tag@)
}

/// What one slot gives for a password: the master key, or why it gives none.
/// The checks come in the order of the slot's fields: type, salt, cost
/// parameters, nonce, wrapped key, tag, authentication, key length.
pub open spec fn slot_unwrap(slot: Slot, password: Seq<u8>) -> Result<Seq<u8>, SlotError> {
    if slot.slot_type != PASSWORD_SLOT {
        Err(SlotError::UnsupportedType)
    } else if !is_hex_text(slot.salt@) {
        Err(SlotError::InvalidSalt)
    } else if slot_log_n(slot) is None || !scrypt_params_valid(
        slot_log_n(slot)->Some_0,
        slot.r,
        slot.p,
    ) {
        Err(SlotError::InvalidKdfParams)
    } else if !is_hex_text(slot.key_params.nonce@) || hex_bytes(slot.key_params.nonce@).len()
        != NONCE_LEN {
        Err(SlotError::InvalidNonce)
    } else if !is_hex_text(slot.key@) {
        Err(SlotError::InvalidKey)
    } else if !is_hex_text(slot.key_params.tag@) || hex_bytes(slot.key_params.tag@).len()
        != TAG_LEN {
        Err(SlotError::InvalidTag)
    } else {
        match aes256gcm_opened(
            slot_kek(slot, password),
            hex_bytes(slot.key_params.nonce@),
            slot_sealed(slot),
        ) {
            None => Err(SlotError::AuthenticationFailed),
            Some(key) => if key.len() == KEY_LEN {
                Ok(key)
            } else {
                Err(SlotError::InvalidKeyLength)
            },
        }
    }
}

/// The master key given by the first slot, from index `i` on in header
/// order, that unwraps with the password.
pub open spec fn first_unwrapped_from(slots: Seq<Slot>, password: Seq<u8>, i: int) -> Option<
    Seq<u8>,
>
    decreases slots.len() - i,
{
    if i < 0 || i >= slots.len() {
        None
    } else {
        match slot_unwrap(slots[i], password) {
            Ok(key) => Some(key),
            Err(_) => first_unwrapped_from(slots, password, i + 1),
        }
    }
}

/// The master key given by the first slot of the header that unwraps with
/// the password.
pub open spec fn first_unwrapped(slots: Seq<Slot>, password: Seq<u8>) -> Option<Seq<u8>> {
    first_unwrapped_from(slots, password, 0)
}

/// What the payload of a vault decrypts to under a master key.
pub open spec fn payload_plaintext(vault: Vault, master_key: Seq<u8>) -> Result<
    Seq<char>,
    DecryptError,
> {
    let params = vault.header.params;
    match base64_decoded(vault.db@) {
        None => Err(DecryptError::InvalidEncoding),
        Some(ciphertext) => if !is_hex_text(params.nonce@) || hex_bytes(params.nonce@).len()
            != NONCE_LEN {
            Err(DecryptError::InvalidNonce)
        } else if !is_hex_text(params.tag@) || hex_bytes(params.tag@).len() != TAG_LEN {
            Err(DecryptError::InvalidTag)
        } else {
            match aes256gcm_opened(
                master_key,
                hex_bytes(params.nonce@),
                ciphertext + hex_bytes(params.tag@),
            ) {
                None => Err(DecryptError::PayloadAuthenticationFailed),
                Some(bytes) => if valid_utf8(bytes) {
                    Ok(decode_utf8(bytes))
                } else {
                    Err(DecryptError::InvalidPlaintextEncoding)
                },
            }
        },
    }
}

/// What a vault decrypts to under a password.
pub open spec fn vault_plaintext(vault: Vault, password: Seq<u8>) -> Result<
    Seq<char>,
    DecryptError,
> {
    match first_unwrapped(vault.header.slots@, password) {
        None => Err(DecryptError::NoMatchingSlot),
        Some(key) => payload_plaintext(vault, key),
    }
}

pub open spec fn key_view<E>(r: Result<Vec<u8>, E>) -> Result<Seq<u8>, E> {
    match r {
        Ok(v) => Ok(v@),
        Err(e) => Err(e),
    }
}

pub open spec fn text_view<E>(r: Result<String, E>) -> Result<Seq<char>, E> {
    match r {
        Ok(s) => Ok(s@),
        Err(e) => Err(e),
    }
}

/// Tries one slot: derives its key-encryption key from the password and
/// unwraps the master key with it.
pub fn try_slot(slot: &Slot, password: &[u8]) -> (r: Result<Vec<u8>, SlotError>)
    ensures
        key_view(r) == slot_unwrap(*slot, password@),
{
    if slot.slot_type != PASSWORD_SLOT {
        return Err(SlotError::UnsupportedType);
    }
    let salt = match hex_decode(slot.salt.as_str()) {
        Some(s) => s,
        None => return Err(SlotError::InvalidSalt),
    };
    let log_n = match log2_of_power(slot.n) {
        Some(k) => k,
        None => return Err(SlotError::InvalidKdfParams),
    };
    let kek = match scrypt_derive(password, salt.as_slice(), log_n, slot.r, slot.p, KEY_LEN) {
        Some(k) => k,
        None => return Err(SlotError::InvalidKdfParams),
    };
    let nonce = match hex_decode(slot.key_params.nonce.as_str()) {
        Some(v) => v,
        None => return Err(SlotError::InvalidNonce),
    };
    if nonce.len() != NONCE_LEN {
        return Err(SlotError::InvalidNonce);
    }
    let mut sealed = match hex_decode(slot.key.as_str()) {
        Some(c) => c,
        None => return Err(SlotError::InvalidKey),
    };
    let mut tag = match hex_decode(slot.key_params.tag.as_str()) {
        Some(t) => t,
        None => return Err(SlotError::InvalidTag),
    };
    if tag.len() != TAG_LEN {
        return Err(SlotError::InvalidTag);
    }
    sealed.append(&mut tag);
    match aes256gcm_open(kek.as_slice(), nonce.as_slice(), sealed.as_slice()) {
        None => Err(SlotError::AuthenticationFailed),
        Some(key) => if key.len() == KEY_LEN {
            Ok(key)
        } else {
            Err(SlotError::InvalidKeyLength)
        },
    }
}

/// Tries the slots in header order and returns the master key of the first
/// one that unwraps with the password.
pub fn unwrap_master_key(header: &Header, password: &[u8]) -> (r: Result<Vec<u8>, DecryptError>)
    ensures
        r matches Ok(key) ==> first_unwrapped(header.slots@, password@) == Some(key@)
            && key@.len() == KEY_LEN,
        r is Err ==> first_unwrapped(header.slots@, password@) is None && r == Err::<
            Vec<u8>,
            DecryptError,
        >(DecryptError::NoMatchingSlot),
{
    let mut i: usize = 0;
    while i < header.slots.len()
        invariant
            i <= header.slots@.len(),
            first_unwrapped(header.slots@, password@) == first_unwrapped_from(
                header.slots@,
                password@,
                i as int,
            ),
        decreases header.slots@.len() - i,
    {
        match try_slot(&header.slots[i], password) {
            Ok(key) => {
                return Ok(key);
            },
            Err(_) => {},
        }
        i = i + 1;
    }
    Err(DecryptError::NoMatchingSlot)
}

/// Decrypts the payload of a vault with its 32-byte master key into text.
pub fn decrypt_payload(vault: &Vault, master_key: &[u8]) -> (r: Result<String, DecryptError>)
    requires
        master_key@.len() == KEY_LEN,
    ensures
        text_view(r) == payload_plaintext(*vault, master_key@),
{
    let ciphertext = match base64_decode(vault.db.as_str()) {
        Some(c) => c,
        None => return Err(DecryptError::InvalidEncoding),
    };
    let params = &vault.header.params;
    let nonce = match hex_decode(params.nonce.as_str()) {
        Some(v) => v,
        None => return Err(DecryptError::InvalidNonce),
    };
    if nonce.len() != NONCE_LEN {
        return Err(DecryptError::InvalidNonce);
    }
    let mut tag = match hex_decode(params.tag.as_str()) {
        Some(t) => t,
        None => return Err(DecryptError::InvalidTag),
    };
    if tag.len() != TAG_LEN {
        return Err(DecryptError::InvalidTag);
    }
    let mut sealed = ciphertext;
    sealed.append(&mut tag);
    let bytes = match aes256gcm_open(master_key, nonce.as_slice(), sealed.as_slice()) {
        Some(b) => b,
        None => return Err(DecryptError::PayloadAuthenticationFailed),
    };
    match crate::encoding::utf8_text(bytes) {
        Some(text) => Ok(text),
        None => Err(DecryptError::InvalidPlaintextEncoding),
    }
}

/// Opens a vault with a password: unwraps the master key from the first
/// matching slot, then decrypts the payload with it.
pub fn decrypt_vault(vault: &Vault, password: &[u8]) -> (r: Result<String, DecryptError>)
    ensures
        text_view(r) == vault_plaintext(*vault, password@),
{
    let master_key = unwrap_master_key(&vault.header, password)?;
    decrypt_payload(vault, master_key.as_slice())
}

} // verus!
