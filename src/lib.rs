//! Opens password-protected, multi-slot authenticator vaults: unwraps the
//! master key from the first password slot that authenticates, decrypts the
//! payload with it, and prepares the recovered text for a viewer.

pub mod crypto;
pub mod decrypt;
pub mod encoding;
pub mod laws;
pub mod models;
pub mod viewer;

pub use decrypt::{decrypt_payload, decrypt_vault, try_slot, unwrap_master_key, DecryptError, SlotError};
pub use models::{Header, HeaderParams, KeyParams, Slot, Vault};
