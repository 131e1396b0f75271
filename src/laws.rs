use vstd::prelude::*;
use vstd::utf8::{decode_utf8, encode_utf8, encode_utf8_decode_utf8, encode_utf8_valid_utf8, valid_utf8};
use crate::crypto::{aes256gcm_opened, scrypt_params_valid};
use crate::decrypt::{
    first_unwrapped, first_unwrapped_from, payload_plaintext, slot_kek, slot_log_n, slot_sealed,
    slot_unwrap, vault_plaintext, DecryptError, SlotError, KEY_LEN, NONCE_LEN, PASSWORD_SLOT,
    TAG_LEN,
};
use crate::encoding::{base64_decoded, hex_bytes, is_hex_text};
use crate::models::{Slot, Vault};

verus! {

/// A password slot whose every field decodes and whose cost parameters
/// scrypt accepts.
pub open spec fn slot_well_formed(slot: Slot) -> bool {
    &&& slot.slot_type == PASSWORD_SLOT
    &&& is_hex_text(slot.salt@)
    &&& slot_log_n(slot) is Some
    &&& scrypt_params_valid(slot_log_n(slot)->Some_0, slot.r, slot.p)
    &&& is_hex_text(slot.key_params.nonce@)
    &&& hex_bytes(slot.key_params.nonce@).len() == NONCE_LEN
    &&& is_hex_text(slot.key@)
    &&& is_hex_text(slot.key_params.tag@)
    &&& hex_bytes(slot.key_params.tag@).len() == TAG_LEN
}

/// What AES-GCM gives for a well-formed slot under a password.
pub open spec fn slot_opened(slot: Slot, password: Seq<u8>) -> Option<Seq<u8>> {
    aes256gcm_opened(slot_kek(slot, password), hex_bytes(slot.key_params.nonce@), slot_sealed(slot))
}

/// A slot built from a password `password` around the master key `key`:
/// well formed, and sealing `key` under the key that the password derives.
pub open spec fn slot_wraps(slot: Slot, password: Seq<u8>, key: Seq<u8>) -> bool {
    &&& slot_well_formed(slot)
    &&& key.len() == KEY_LEN
    &&& slot_opened(slot, password) == Some(key)
}

/// A vault whose payload fields all decode.
pub open spec fn payload_well_formed(vault: Vault) -> bool {
    &&& base64_decoded(vault.db@) is Some
    &&& is_hex_text(vault.header.params.nonce@)
    &&& hex_bytes(vault.header.params.nonce@).len() == NONCE_LEN
    &&& is_hex_text(vault.header.params.tag@)
    &&& hex_bytes(vault.header.params.tag@).len() == TAG_LEN
}

/// What AES-GCM gives for a well-formed payload under a master key.
pub open spec fn payload_opened(vault: Vault, master_key: Seq<u8>) -> Option<Seq<u8>> {
    aes256gcm_opened(
        master_key,
        hex_bytes(vault.header.params.nonce@),
        base64_decoded(vault.db@)->Some_0 + hex_bytes(vault.header.params.tag@),
    )
}

/// Round trip, payload side: a payload that seals the UTF-8 encoding of a
/// text under the master key decrypts to exactly that text.
pub proof fn lemma_payload_round_trip(vault: Vault, master_key: Seq<u8>, text: Seq<char>)
    requires
        payload_well_formed(vault),
        payload_opened(vault, master_key) == Some(encode_utf8(text)),
    ensures
        payload_plaintext(vault, master_key) == Ok::<Seq<char>, DecryptError>(text),
{
    encode_utf8_valid_utf8(text);
    encode_utf8_decode_utf8(text);
}

/// Round trip, slot side: a slot that wraps a master key under a password
/// unwraps to exactly that key with that password, alone in a header.
pub proof fn lemma_slot_round_trip(slot: Slot, password: Seq<u8>, key: Seq<u8>)
    requires
        slot_wraps(slot, password, key),
    ensures
        slot_unwrap(slot, password) == Ok::<Seq<u8>, SlotError>(key),
        first_unwrapped(seq![slot], password) == Some(key),
{
}

/// Round trip, whole vault: one slot wrapping the master key under the
/// password and a payload sealing a text under that key give the text back.
pub proof fn lemma_vault_round_trip(
    vault: Vault,
    password: Seq<u8>,
    key: Seq<u8>,
    text: Seq<char>,
)
    requires
        vault.header.slots@.len() == 1,
        slot_wraps(vault.header.slots@[0], password, key),
        payload_well_formed(vault),
        payload_opened(vault, key) == Some(encode_utf8(text)),
    ensures
        vault_plaintext(vault, password) == Ok::<Seq<char>, DecryptError>(text),
{
    lemma_slot_round_trip(vault.header.slots@[0], password, key);
    assert(vault.header.slots@ =~= seq![vault.header.slots@[0]]);
    lemma_payload_round_trip(vault, key, text);
}

/// A password that unwraps no slot gives no master key, and the vault then
/// fails with `NoMatchingSlot`.
pub proof fn lemma_wrong_password_rejected(vault: Vault, password: Seq<u8>)
    requires
        forall|i: int|
            0 <= i < vault.header.slots@.len() ==> #[trigger] slot_unwrap(
                vault.header.slots@[i],
                password,
            ) is Err,
    ensures
        first_unwrapped(vault.header.slots@, password) is None,
        vault_plaintext(vault, password) == Err::<Seq<char>, DecryptError>(
            DecryptError::NoMatchingSlot,
        ),
{
    lemma_none_unwrap_from(vault.header.slots@, password, 0);
}

proof fn lemma_none_unwrap_from(slots: Seq<Slot>, password: Seq<u8>, i: int)
    requires
        0 <= i,
        forall|j: int| 0 <= j < slots.len() ==> #[trigger] slot_unwrap(slots[j], password) is Err,
    ensures
        first_unwrapped_from(slots, password, i) is None,
    decreases slots.len() - i,
{
    if i < slots.len() {
        assert(slot_unwrap(slots[i], password) is Err);
        lemma_none_unwrap_from(slots, password, i + 1);
    }
}

/// Several slots wrapping one master key, each under its own password:
/// any one of the passwords opens the header and gives that same key. Left
/// out are the headers in which a slot before the password's own unwraps,
/// under that password, to some other key.
pub proof fn lemma_any_password_matches(
    slots: Seq<Slot>,
    passwords: Seq<Seq<u8>>,
    key: Seq<u8>,
    j: int,
)
    requires
        slots.len() == passwords.len(),
        forall|i: int| 0 <= i < slots.len() ==> slot_wraps(slots[i], #[trigger] passwords[i], key),
        0 <= j < slots.len(),
        forall|i: int|
            0 <= i < j ==> (#[trigger] slot_unwrap(slots[i], passwords[j]) is Ok ==> slot_unwrap(
                slots[i],
                passwords[j],
            ) == Ok::<Seq<u8>, SlotError>(key)),
    ensures
        first_unwrapped(slots, passwords[j]) == Some(key),
{
    lemma_slot_round_trip(slots[j], passwords[j], key);
    lemma_unwrap_reaches(slots, passwords[j], key, j, 0);
}

proof fn lemma_unwrap_reaches(slots: Seq<Slot>, password: Seq<u8>, key: Seq<u8>, j: int, i: int)
    requires
        0 <= i <= j < slots.len(),
        slot_unwrap(slots[j], password) == Ok::<Seq<u8>, SlotError>(key),
        forall|k: int|
            0 <= k < j ==> (#[trigger] slot_unwrap(slots[k], password) is Ok ==> slot_unwrap(
                slots[k],
                password,
            ) == Ok::<Seq<u8>, SlotError>(key)),
    ensures
        first_unwrapped_from(slots, password, i) == Some(key),
    decreases j - i,
{
    if i < j {
        if slot_unwrap(slots[i], password) is Err {
            lemma_unwrap_reaches(slots, password, key, j, i + 1);
        }
    }
}

/// Slots are tried in header order and the first that unwraps wins: when
/// slot `i` is the first to unwrap with the password, the vault opens with
/// its key, whatever the later slots hold.
pub proof fn lemma_first_match_wins(vault: Vault, password: Seq<u8>, i: int, key: Seq<u8>)
    requires
        0 <= i < vault.header.slots@.len(),
        slot_unwrap(vault.header.slots@[i], password) == Ok::<Seq<u8>, SlotError>(key),
        forall|k: int|
            0 <= k < i ==> #[trigger] slot_unwrap(vault.header.slots@[k], password) is Err,
    ensures
        first_unwrapped(vault.header.slots@, password) == Some(key),
        vault_plaintext(vault, password) == payload_plaintext(vault, key),
{
    lemma_unwrap_reaches(vault.header.slots@, password, key, i, 0);
}

/// A slot whose salt is not hex text is skipped: the well-formed slot after
/// it still gives the master key.
pub proof fn lemma_malformed_slot_skipped(bad: Slot, good: Slot, password: Seq<u8>, key: Seq<u8>)
    requires
        !is_hex_text(bad.salt@),
        slot_wraps(good, password, key),
    ensures
        slot_unwrap(bad, password) is Err,
        first_unwrapped(seq![bad, good], password) == Some(key),
{
    lemma_slot_round_trip(good, password, key);
    let slots = seq![bad, good];
    assert(slots[0] == bad && slots[1] == good);
    assert(slot_unwrap(slots[0], password) is Err);
    assert(first_unwrapped_from(slots, password, 1) == Some(key));
}

/// A slot whose tag does not authenticate gives no master key.
pub proof fn lemma_slot_tag_checked(slot: Slot, password: Seq<u8>)
    requires
        slot_well_formed(slot),
        slot_opened(slot, password) is None,
    ensures
        slot_unwrap(slot, password) == Err::<Seq<u8>, SlotError>(SlotError::AuthenticationFailed),
{
}

/// A payload whose tag does not authenticate under the master key fails
/// with `PayloadAuthenticationFailed`, never with some text.
pub proof fn lemma_payload_tag_checked(vault: Vault, master_key: Seq<u8>)
    requires
        payload_well_formed(vault),
        payload_opened(vault, master_key) is None,
    ensures
        payload_plaintext(vault, master_key) == Err::<Seq<char>, DecryptError>(
            DecryptError::PayloadAuthenticationFailed,
        ),
{
}

/// An authenticated payload whose bytes are not UTF-8 fails with
/// `InvalidPlaintextEncoding`.
pub proof fn lemma_non_utf8_rejected(vault: Vault, master_key: Seq<u8>, bytes: Seq<u8>)
    requires
        payload_well_formed(vault),
        payload_opened(vault, master_key) == Some(bytes),
        !valid_utf8(bytes),
    ensures
        payload_plaintext(vault, master_key) == Err::<Seq<char>, DecryptError>(
            DecryptError::InvalidPlaintextEncoding,
        ),
{
}

} // verus!
