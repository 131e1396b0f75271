use aegis_decrypt::crypto::log2_of_power;
use aegis_decrypt::{
    decrypt_payload, decrypt_vault, try_slot, unwrap_master_key, DecryptError, Header,
    HeaderParams, KeyParams, Slot, SlotError, Vault,
};

fn master_key() -> Vec<u8> {
    (0x20u8..0x40).collect()
}

fn slot(salt: &str, n: u32, r: u32, p: u32, key: &str, nonce: &str, tag: &str) -> Slot {
    Slot {
        slot_type: 1,
        salt: salt.to_string(),
        n,
        r,
        p,
        key: key.to_string(),
        key_params: KeyParams { nonce: nonce.to_string(), tag: tag.to_string() },
    }
}

fn alpha_slot() -> Slot {
    slot(
        "11111111111111111111111111111111",
        16,
        1,
        1,
        "4acab388f2fdaf42b52db6c66b9657c37c46be2c29c1b970ca380041ffa6c0ec",
        "111111111111111111111111",
        "efdec5628c6336c958d7ed43a88dbc40",
    )
}

fn bravo_slot() -> Slot {
    slot(
        "22222222222222222222222222222222",
        16,
        1,
        1,
        "53725c97a1e89efcdca20e9c5c796d81eaf206f2b144b9ec442f1ffc3ad16d4f",
        "222222222222222222222222",
        "0ece145887520b26795576405d66ea81",
    )
}

fn charlie_slot() -> Slot {
    slot(
        "33333333333333333333333333333333",
        16,
        1,
        1,
        "7fd25863995eb77ff0c5cdf5e5cd57fc1d7b5bd3517dfecb108117ef6d00d052",
        "333333333333333333333333",
        "7b16c5ec522334b67935aa010d7ffa03",
    )
}

fn header(slots: Vec<Slot>, nonce: &str, tag: &str) -> Header {
    Header { slots, params: HeaderParams { nonce: nonce.to_string(), tag: tag.to_string() } }
}

/// A payload holding "héllo\nwörld" under the master key.
fn text_vault(slots: Vec<Slot>) -> Vault {
    Vault {
        header: header(slots, "555555555555555555555555", "0e1ba943e35d721b1fd4d7276e257245"),
        db: "IwiPcVoqRDv8KvC+Lw==".to_string(),
    }
}

fn flip_first_bit(hex_text: &str) -> String {
    let first = u8::from_str_radix(&hex_text[..2], 16).unwrap() ^ 0x01;
    format!("{:02x}{}", first, &hex_text[2..])
}

#[test]
fn concrete_vault_scenario() {
    let vault = Vault {
        header: header(
            vec![slot(
                "a1a1a1a1a1a1a1a1a1a1a1a1a1a1a1a1a1a1a1a1a1a1a1a1a1a1a1a1a1a1a1a1",
                32768,
                8,
                1,
                "3ca4f60c5c4d2ac8a024a3a0c555597d91d27532a7ff36e2555d38ac13d330f5",
                "b2b2b2b2b2b2b2b2b2b2b2b2",
                "3b0e4876303829bcadbcba6a44947857",
            )],
            "c3c3c3c3c3c3c3c3c3c3c3c3",
            "797f65ddc8e8e01115f6ddbfbb253189",
        ),
        db: "KrxucAsX8nGWon+CDis=".to_string(),
    };
    assert_eq!(decrypt_vault(&vault, b"correct-password"), Ok("{\"entries\":[]}".to_string()));
}

#[test]
fn round_trip_slot_and_payload() {
    let vault = text_vault(vec![alpha_slot()]);
    let key = unwrap_master_key(&vault.header, b"alpha").unwrap();
    assert_eq!(key, master_key());
    assert_eq!(decrypt_payload(&vault, &key), Ok("héllo\nwörld".to_string()));
    assert_eq!(decrypt_vault(&vault, b"alpha"), Ok("héllo\nwörld".to_string()));
}

#[test]
fn wrong_password_rejected() {
    let vault = text_vault(vec![alpha_slot(), bravo_slot()]);
    assert_eq!(unwrap_master_key(&vault.header, b"delta"), Err(DecryptError::NoMatchingSlot));
    assert_eq!(decrypt_vault(&vault, b"delta"), Err(DecryptError::NoMatchingSlot));
    assert_eq!(try_slot(&alpha_slot(), b"bravo"), Err(SlotError::AuthenticationFailed));
}

#[test]
fn any_slot_password_opens() {
    let h = header(vec![alpha_slot(), bravo_slot(), charlie_slot()], "", "");
    for pw in [&b"alpha"[..], b"bravo", b"charlie"] {
        assert_eq!(unwrap_master_key(&h, pw), Ok(master_key()));
    }
}

#[test]
fn malformed_slot_skipped() {
    let mut bad = alpha_slot();
    bad.salt = "zz11".to_string();
    assert_eq!(try_slot(&bad, b"bravo"), Err(SlotError::InvalidSalt));
    let vault = text_vault(vec![bad, bravo_slot()]);
    assert_eq!(decrypt_vault(&vault, b"bravo"), Ok("héllo\nwörld".to_string()));
}

#[test]
fn slot_tag_tampering_detected() {
    let mut s = alpha_slot();
    s.key_params.tag = flip_first_bit(&s.key_params.tag);
    assert_eq!(try_slot(&s, b"alpha"), Err(SlotError::AuthenticationFailed));
    let vault = text_vault(vec![s]);
    assert_eq!(decrypt_vault(&vault, b"alpha"), Err(DecryptError::NoMatchingSlot));
}

#[test]
fn payload_tag_tampering_detected() {
    let mut vault = text_vault(vec![alpha_slot()]);
    vault.header.params.tag = flip_first_bit(&vault.header.params.tag);
    assert_eq!(decrypt_vault(&vault, b"alpha"), Err(DecryptError::PayloadAuthenticationFailed));
}

#[test]
fn non_utf8_payload_rejected() {
    let vault = Vault {
        header: header(
            vec![alpha_slot()],
            "666666666666666666666666",
            "e30a3da571f50c1dc7385accd3f32677",
        ),
        db: "gUsu2TJq".to_string(),
    };
    assert_eq!(decrypt_vault(&vault, b"alpha"), Err(DecryptError::InvalidPlaintextEncoding));
}

#[test]
fn other_slot_types_skipped() {
    let mut other = bravo_slot();
    other.slot_type = 2;
    assert_eq!(try_slot(&other, b"bravo"), Err(SlotError::UnsupportedType));
    let h = header(vec![other, alpha_slot()], "", "");
    assert_eq!(unwrap_master_key(&h, b"bravo"), Err(DecryptError::NoMatchingSlot));
    assert_eq!(unwrap_master_key(&h, b"alpha"), Ok(master_key()));
}

#[test]
fn empty_header_never_unwraps() {
    let h = header(vec![], "", "");
    assert_eq!(unwrap_master_key(&h, b""), Err(DecryptError::NoMatchingSlot));
}

#[test]
fn uppercase_hex_accepted() {
    let mut s = alpha_slot();
    s.key = s.key.to_uppercase();
    s.key_params.tag = s.key_params.tag.to_uppercase();
    assert_eq!(try_slot(&s, b"alpha"), Ok(master_key()));
}

#[test]
fn slot_field_errors() {
    let mut s = alpha_slot();
    s.n = 24;
    assert_eq!(try_slot(&s, b"alpha"), Err(SlotError::InvalidKdfParams));
    let mut s = alpha_slot();
    s.r = 0;
    assert_eq!(try_slot(&s, b"alpha"), Err(SlotError::InvalidKdfParams));
    let mut s = alpha_slot();
    s.n = 0;
    assert_eq!(try_slot(&s, b"alpha"), Err(SlotError::InvalidKdfParams));
    let mut s = alpha_slot();
    s.key_params.nonce = "1111".to_string();
    assert_eq!(try_slot(&s, b"alpha"), Err(SlotError::InvalidNonce));
    let mut s = alpha_slot();
    s.key_params.nonce = "11111111111111111111111g".to_string();
    assert_eq!(try_slot(&s, b"alpha"), Err(SlotError::InvalidNonce));
    let mut s = alpha_slot();
    s.key = "abc".to_string();
    assert_eq!(try_slot(&s, b"alpha"), Err(SlotError::InvalidKey));
    let mut s = alpha_slot();
    s.key_params.tag = "xy".to_string();
    assert_eq!(try_slot(&s, b"alpha"), Err(SlotError::InvalidTag));
}

#[test]
fn short_wrapped_key_rejected() {
    let s = slot(
        "44444444444444444444444444444444",
        16,
        1,
        1,
        "ec7466d11df3493d56abeec1e31a56b0",
        "444444444444444444444444",
        "d26da824f88e6b5759dcb8c59327d02e",
    );
    assert_eq!(try_slot(&s, b"alpha"), Err(SlotError::InvalidKeyLength));
}

#[test]
fn payload_field_errors() {
    let key = master_key();
    let mut v = text_vault(vec![]);
    v.db = "not base64!".to_string();
    assert_eq!(decrypt_payload(&v, &key), Err(DecryptError::InvalidEncoding));
    let mut v = text_vault(vec![]);
    v.header.params.nonce = "5555".to_string();
    assert_eq!(decrypt_payload(&v, &key), Err(DecryptError::InvalidNonce));
    let mut v = text_vault(vec![]);
    v.header.params.tag = "0e1".to_string();
    assert_eq!(decrypt_payload(&v, &key), Err(DecryptError::InvalidTag));
    let v = text_vault(vec![]);
    let wrong: Vec<u8> = vec![7u8; 32];
    assert_eq!(decrypt_payload(&v, &wrong), Err(DecryptError::PayloadAuthenticationFailed));
}

#[test]
fn log2_of_powers_of_two() {
    assert_eq!(log2_of_power(1), Some(0));
    assert_eq!(log2_of_power(16), Some(4));
    assert_eq!(log2_of_power(32768), Some(15));
    assert_eq!(log2_of_power(1 << 31), Some(31));
    assert_eq!(log2_of_power(0), None);
    assert_eq!(log2_of_power(3), None);
    assert_eq!(log2_of_power(32767), None);
    assert_eq!(log2_of_power(u32::MAX), None);
}

#[test]
fn slot_tag_of_wrong_size_skipped() {
    let mut s = alpha_slot();
    s.key = format!("{}{}", s.key, s.key_params.tag);
    s.key_params.tag = String::new();
    assert_eq!(try_slot(&s, b"alpha"), Err(SlotError::InvalidTag));
    let vault = text_vault(vec![s]);
    assert_eq!(decrypt_vault(&vault, b"alpha"), Err(DecryptError::NoMatchingSlot));
    let mut s = alpha_slot();
    s.key_params.tag = "efde".to_string();
    assert_eq!(try_slot(&s, b"alpha"), Err(SlotError::InvalidTag));
}

#[test]
fn payload_tag_of_wrong_size_rejected() {
    let key = master_key();
    let mut v = text_vault(vec![]);
    v.db = "IwiPcVoqRDv8KvC+Lw4bqUPjXXIbH9TXJ24lckU=".to_string();
    v.header.params.tag = String::new();
    assert_eq!(decrypt_payload(&v, &key), Err(DecryptError::InvalidTag));
    let mut v = text_vault(vec![alpha_slot()]);
    v.header.params.tag = "0e1b".to_string();
    assert_eq!(decrypt_vault(&v, b"alpha"), Err(DecryptError::InvalidTag));
}
