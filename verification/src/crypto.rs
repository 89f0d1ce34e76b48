use vstd::prelude::*;
use hmac::Mac;

verus! {

/// The tag that hashed message authentication with the 256-bit secure hash
/// returns for a key and a message. The result depends on the two arguments
/// alone; no short statement can pin its value down.
pub uninterp spec fn mac_of(key: Seq<u8>, data: Seq<u8>) -> Seq<u8>;

/// The shared point that the curve-25519 key agreement returns for one side's
/// private key and the other side's public key. The result depends on the two
/// arguments alone.
pub uninterp spec fn shared_secret_of(private_key: Seq<u8>, public_key: Seq<u8>) -> Seq<u8>;

/// Relies on hmac's `Hmac<Sha256>` (`new_from_slice`, `update`, `finalize`):
/// a keyed tag over the data, 32 bytes long, a function of key and data
/// alone. A key of any length is accepted.
#[verifier::external_body]
pub(crate) fn compute_mac(key: &Vec<u8>, data: &Vec<u8>) -> (r: Vec<u8>)
    ensures
        r@ == mac_of(key@, data@),
        r@.len() == 32,
{
    let mut m = <hmac::Hmac<sha2::Sha256> as hmac::KeyInit>::new_from_slice(key.as_slice()).unwrap();
    m.update(data.as_slice());
    m.finalize().into_bytes().to_vec()
}

/// Relies on x25519-dalek's `StaticSecret::diffie_hellman`: the 32-byte
/// shared point for this private key and that public key, a function of the
/// two arguments alone.
#[verifier::external_body]
pub(crate) fn compute_shared_secret(private_key: &Vec<u8>, public_key: &Vec<u8>) -> (r: Vec<u8>)
    requires
        private_key@.len() == 32,
        public_key@.len() == 32,
    ensures
        r@ == shared_secret_of(private_key@, public_key@),
        r@.len() == 32,
{
    let mut sk = [0u8; 32];
    sk.copy_from_slice(private_key.as_slice());
    let mut pk = [0u8; 32];
    pk.copy_from_slice(public_key.as_slice());
    let secret = x25519_dalek::StaticSecret::from(sk);
    let public = x25519_dalek::PublicKey::from(pk);
    secret.diffie_hellman(&public).as_bytes().to_vec()
}

} // verus!
