use vstd::prelude::*;
use aes_gcm::aead::{Aead, KeyInit};
use aes_gcm::Aes256Gcm;
use crate::encoding::bytes_view;

verus! {

/// `2` to the power `k`.
pub open spec fn two_to(k: nat) -> nat
    decreases k,
{
    if k == 0 {
        1
    } else {
        2 * two_to((k - 1) as nat)
    }
}

/// The base-2 logarithm of `n` where `n` is a power of two, found by
/// halving; `None` for every other `n`.
pub open spec fn exact_log2(n: nat) -> Option<nat>
    decreases n,
{
    if n == 1 {
        Some(0)
    } else if n == 0 || n % 2 == 1 {
        None
    } else {
        match exact_log2(n / 2) {
            Some(k) => Some(k + 1),
            None => None,
        }
    }
}

/// The conditions under which scrypt accepts the cost parameters
/// `(log_n, r, p)`, whatever output length between 10 and 64 bytes is asked for.
pub open spec fn scrypt_params_valid(log_n: u8, r: u32, p: u32) -> bool {
    &&& r > 0
    &&& p > 0
    &&& two_to(log_n as nat) <= usize::MAX
    &&& (r as int) * 128 * two_to(log_n as nat) <= usize::MAX
    &&& (r as int) * 128 * (p as int) <= usize::MAX
    &&& (log_n as int) < (r as int) * 16
    &&& (r as int) * (p as int) < 0x4000_0000
}

/// The `len`-byte key that scrypt derives from a password and a salt under
/// the cost parameters `(log_n, r, p)`.
pub uninterp spec fn scrypt_key(
    password: Seq<u8>,
    salt: Seq<u8>,
    log_n: u8,
    r: u32,
    p: u32,
    len: usize,
) -> Seq<u8>;

/// What AES-256-GCM decryption with a 96-bit nonce gives for a ciphertext
/// followed by its 16-byte tag: the plaintext where the tag authenticates,
/// `None` where it does not.
pub uninterp spec fn aes256gcm_opened(key: Seq<u8>, nonce: Seq<u8>, sealed: Seq<u8>) -> Option<Seq<u8>>;

pub proof fn lemma_two_to_monotone(j: nat, k: nat)
    requires
        j <= k,
    ensures
        two_to(j) <= two_to(k),
    decreases k,
{
    if j < k {
        lemma_two_to_monotone(j, (k - 1) as nat);
    }
}

pub proof fn lemma_exact_log2_power(n: nat)
    ensures
        exact_log2(n) matches Some(k) ==> two_to(k) == n,
    decreases n,
{
    if n > 1 && n % 2 == 0 {
        lemma_exact_log2_power(n / 2);
    }
}

/// The exponent of `n` where `n` is a power of two.
pub fn log2_of_power(n: u32) -> (r: Option<u8>)
    ensures
        r matches Some(k) ==> exact_log2(n as nat) == Some(k as nat) && k < 32 && two_to(k as nat)
            == n,
        r is None ==> exact_log2(n as nat) is None,
{
    proof {
        lemma_exact_log2_power(n as nat);
    }
    if n == 0 {
        return None;
    }
    let mut m: u32 = n;
    let mut k: u8 = 0;
    assert(two_to(0) == 1);
    while m > 1 && m % 2 == 0
        invariant
            m >= 1,
            k < 32,
            m as nat * two_to(k as nat) == n as nat,
            exact_log2(n as nat) == (match exact_log2(m as nat) {
                Some(j) => Some((j + k) as nat),
                None => None,
            }),
        decreases m,
    {
        proof {
            reveal_with_fuel(two_to, 32);
            if k >= 31 {
                lemma_two_to_monotone(31, k as nat);
                assert(m as nat * two_to(k as nat) >= 2 * 0x8000_0000) by (nonlinear_arith)
                    requires
                        m >= 2,
                        two_to(k as nat) >= 0x8000_0000,
                ;
            }
            assert(two_to((k + 1) as nat) == 2 * two_to(k as nat));
            assert((m / 2) as nat * two_to((k + 1) as nat) == n as nat) by (nonlinear_arith)
                requires
                    m % 2 == 0,
                    m as nat * two_to(k as nat) == n as nat,
                    two_to((k + 1) as nat) == 2 * two_to(k as nat),
            ;
        }
        m = m / 2;
        k = k + 1;
    }
    if m == 1 {
        Some(k)
    } else {
        None
    }
}

/// Relies on scrypt::Params::new, which accepts exactly the parameters of
/// `scrypt_params_valid` with an output length from 10 to 64 bytes, and on
/// scrypt::scrypt, which then fills the output of that length without
/// error; the key depends on the password, the salt, the parameters and the
/// length alone. The derivation allocates `128 * r * n` bytes.
#[verifier::external_body]
pub(crate) fn scrypt_derive(
    password: &[u8],
    salt: &[u8],
    log_n: u8,
    r: u32,
    p: u32,
    len: usize,
) -> (res: Option<Vec<u8>>)
    ensures
        res is Some <==> (scrypt_params_valid(log_n, r, p) && 10 <= len && len <= 64),
        res matches Some(k) ==> (k@ == scrypt_key(password@, salt@, log_n, r, p, len) && k@.len()
            == len),
{
    let params = scrypt::Params::new(log_n, r, p, len).ok()?;
    let mut key = vec![0u8; len];
    scrypt::scrypt(password, salt, &params, &mut key).ok()?;
    Some(key)
}

/// Relies on aes_gcm's Aes256Gcm: `Key::from_slice` and `Nonce::from_slice`
/// (which panic unless the key has 32 bytes and the nonce 12), `KeyInit::new`,
/// and `Aead::decrypt`, which splits off the trailing 16-byte tag and returns
/// the plaintext only where the tag authenticates. The result depends on the
/// three arguments alone.
#[verifier::external_body]
pub(crate) fn aes256gcm_open(key: &[u8], nonce: &[u8], sealed: &[u8]) -> (r: Option<Vec<u8>>)
    requires
        key@.len() == 32,
        nonce@.len() == 12,
    ensures
        bytes_view(r) == aes256gcm_opened(key@, nonce@, sealed@),
{
    let cipher = Aes256Gcm::new(aes_gcm::Key::<Aes256Gcm>::from_slice(key));
    cipher.decrypt(aes_gcm::Nonce::from_slice(nonce), sealed).ok()
}

} // verus!
