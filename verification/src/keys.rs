//! The key pair as the pipeline carries it: both values in standard padded
//! base64, converted from the URL-safe unpadded coordinates of the host's
//! structured key export.

use vstd::prelude::*;
use crate::encoding::{
    is_std_b64_char, is_url_b64_seq, lemma_std_of_url_alphabet, std_of_url, to_std_base64,
};

verus! {

/// An X25519 key pair, both values encoded for the WireGuard configuration
/// format: standard base64 alphabet, padded.
#[derive(Debug, Clone, PartialEq, Eq)]
pub struct KeyPair {
    pub public_key: String,
    pub private_key: String,
}

impl KeyPair {
    /// Both fields use the standard base64 alphabet, never the URL-safe one.
    pub open spec fn wf(self) -> bool {
        &&& forall|i: int|
            0 <= i < self.public_key@.len() ==> is_std_b64_char(#[trigger] self.public_key@[i])
        &&& forall|i: int|
            0 <= i < self.private_key@.len() ==> is_std_b64_char(#[trigger] self.private_key@[i])
        &&& self.public_key@.len() > 0
        &&& self.private_key@.len() > 0
    }
}

/// Builds the key pair from the two coordinates of the host's structured key
/// export: `x` (the public coordinate) and `d` (the private scalar), both
/// URL-safe unpadded base64. Each is converted to the standard padded
/// alphabet, exactly as `std_of_url` states.
pub fn key_pair_from_jwk_coords(x_b64url: &str, d_b64url: &str) -> (r: KeyPair)
    ensures
        r.public_key@ == std_of_url(x_b64url@),
        r.private_key@ == std_of_url(d_b64url@),
        is_url_b64_seq(x_b64url@) && is_url_b64_seq(d_b64url@) ==> r.wf(),
{
    let kp = KeyPair { public_key: to_std_base64(x_b64url), private_key: to_std_base64(d_b64url) };
    proof {
        if is_url_b64_seq(x_b64url@) && is_url_b64_seq(d_b64url@) {
            lemma_std_of_url_alphabet(x_b64url@);
            lemma_std_of_url_alphabet(d_b64url@);
        }
    }
    kp
}

} // verus!
