//! The pipeline's decision points, as pure steps. The surrounding
//! application performs the two suspending operations — the host crypto
//! export and the network exchange — and hands their outcomes in; each step
//! here decides what follows, so the no-retry and no-fallback policy is part
//! of the contracts.

use vstd::prelude::*;
use crate::config::{generate_config_from_account, synth_config_spec, ParseError};
use crate::encoding::std_of_url;
use crate::identity::random_string_spec;
use crate::json::JsonValue;
use crate::keys::{key_pair_from_jwk_coords, KeyPair};
use crate::request::{fcm_token_spec, generate_warp_request_body, RegistrationRequest};

verus! {

/// The pipeline's terminal failures: the host crypto provider failed, the
/// network exchange failed, or the response is malformed. None is retried.
#[derive(Debug, Clone, PartialEq, Eq)]
pub enum PipelineError {
    Crypto(String),
    Network(String),
    Parse(ParseError),
}

/// The step after key generation. A successful export (the `x` and `d`
/// coordinates, URL-safe unpadded) becomes the key pair and the composed
/// registration request; a failed one becomes `Crypto` at once — request
/// composition is never invoked on a failed export, and no placeholder key
/// is ever registered.
pub fn compose_after_keygen(
    export: Result<(String, String), String>,
    id_entropy: &Vec<u8>,
    suffix_entropy: &Vec<u8>,
) -> (r: Result<(KeyPair, RegistrationRequest), PipelineError>)
    requires
        id_entropy@.len() >= 22,
        suffix_entropy@.len() >= 134,
    ensures
        export matches Err(cause) ==> (r matches Err(PipelineError::Crypto(c)) && c@ == cause@),
        export matches Ok((x, d)) ==> (r matches Ok((kp, req)) && {
            &&& kp.public_key@ == std_of_url(x@)
            &&& kp.private_key@ == std_of_url(d@)
            &&& req.key@ == std_of_url(x@)
            &&& req.install_id@ == random_string_spec(22, id_entropy@)
            &&& req.fcm_token@ == fcm_token_spec(
                random_string_spec(22, id_entropy@),
                random_string_spec(134, suffix_entropy@),
            )
        }),
{
    match export {
        Err(cause) => Err(PipelineError::Crypto(cause)),
        Ok((x, d)) => {
            let kp = key_pair_from_jwk_coords(x.as_str(), d.as_str());
            let req = generate_warp_request_body(
                kp.public_key.as_str(),
                id_entropy,
                suffix_entropy,
            );
            Ok((kp, req))
        },
    }
}

/// The step after the network exchange. A transport failure becomes
/// `Network` as it stands — no alternate endpoint is tried; a received
/// document is decoded and rendered, succeeding exactly where
/// `synth_config_spec` does and failing with the malformed path otherwise.
pub fn finish_after_response(
    response: Result<JsonValue, String>,
    private_key: &str,
    endpoint: &str,
) -> (r: Result<String, PipelineError>)
    ensures
        response matches Err(cause) ==> (r matches Err(PipelineError::Network(c)) && c@
            == cause@),
        response matches Ok(v) ==> match synth_config_spec(v, private_key@, endpoint@) {
            Result::Ok(t) => r matches Ok(cfg) && cfg@ == t,
            Result::Err(p) => r matches Err(PipelineError::Parse(ParseError::MalformedResponse(q)))
                && q@ == p,
        },
{
    match response {
        Err(cause) => Err(PipelineError::Network(cause)),
        Ok(v) => match generate_config_from_account(&v, private_key, endpoint) {
            Ok(cfg) => Ok(cfg),
            Err(e) => Err(PipelineError::Parse(e)),
        },
    }
}

} // verus!
