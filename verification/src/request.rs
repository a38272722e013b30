//! Composition of the provisioning request: the registration record that
//! binds the fresh public key to a synthesized device identity, and its
//! rendering as a JSON document.

use vstd::prelude::*;
use vstd::string::StringExecFns;
use crate::encoding::{escape_json, escape_string};
use crate::identity::{generate_random_string, is_alnum_char, random_string_spec};

verus! {

/// The body of the registration call: the public key, a fresh 22-character
/// install identifier, a synthesized push token, and the terms-of-service
/// timestamp. The `type` and `locale` fields are fixed and appear only in
/// the rendered document.
#[derive(Debug, Clone, PartialEq, Eq)]
pub struct RegistrationRequest {
    pub key: String,
    pub install_id: String,
    pub fcm_token: String,
    pub tos: String,
}

/// The shape of the synthesized push token: the install identifier, a fixed
/// `:APA91b` infix, and the random suffix.
pub open spec fn fcm_token_spec(install_id: Seq<char>, suffix: Seq<char>) -> Seq<char> {
    install_id + ":APA91b"@ + suffix
}

/// The JSON document that a registration request renders to, field by field,
/// every string value escaped for JSON.
pub open spec fn request_json_spec(
    key: Seq<char>,
    install_id: Seq<char>,
    fcm_token: Seq<char>,
    tos: Seq<char>,
) -> Seq<char> {
    "{\"key\":\""@ + escape_string(key) + "\",\"install_id\":\""@ + escape_string(install_id)
        + "\",\"fcm_token\":\""@ + escape_string(fcm_token) + "\",\"tos\":\""@ + escape_string(tos)
        + "\",\"type\":\"Android\",\"locale\":\"en_US\"}"@
}

impl RegistrationRequest {
    /// Renders the request as the JSON body of the registration call,
    /// exactly as `request_json_spec` states.
    pub fn to_json(&self) -> (r: String)
        ensures
            r@ == request_json_spec(self.key@, self.install_id@, self.fcm_token@, self.tos@),
    {
        let mut r = String::from_str("{\"key\":\"");
        r.append(escape_json(self.key.as_str()).as_str());
        r.append("\",\"install_id\":\"");
        r.append(escape_json(self.install_id.as_str()).as_str());
        r.append("\",\"fcm_token\":\"");
        r.append(escape_json(self.fcm_token.as_str()).as_str());
        r.append("\",\"tos\":\"");
        r.append(escape_json(self.tos.as_str()).as_str());
        r.append("\",\"type\":\"Android\",\"locale\":\"en_US\"}");
        r
    }
}

/// The shape of every synthesized identity: the install identifier has
/// exactly 22 characters and the push-token suffix exactly 134, every one of
/// them a letter or a digit, and the token itself is the identifier, the
/// fixed infix, and the suffix — 163 characters in all — whatever entropy
/// the run drew.
pub proof fn lemma_identifier_shapes(id_entropy: Seq<u8>, suffix_entropy: Seq<u8>)
    requires
        id_entropy.len() >= 22,
        suffix_entropy.len() >= 134,
    ensures
        random_string_spec(22, id_entropy).len() == 22,
        random_string_spec(134, suffix_entropy).len() == 134,
        forall|i: int|
            0 <= i < 22 ==> is_alnum_char(#[trigger] random_string_spec(22, id_entropy)[i]),
        forall|i: int|
            0 <= i < 134 ==> is_alnum_char(#[trigger] random_string_spec(134, suffix_entropy)[i]),
        fcm_token_spec(
            random_string_spec(22, id_entropy),
            random_string_spec(134, suffix_entropy),
        ).len() == 163,
{
    reveal_strlit(":APA91b");
}

/// Assembles the registration request from the public key, the timestamp
/// captured by the caller, and two independent entropy sequences: one for
/// the 22-character install identifier, one for the 134-character push-token
/// suffix.
pub fn build_registration_request(
    public_key: &str,
    tos: &str,
    id_entropy: &Vec<u8>,
    suffix_entropy: &Vec<u8>,
) -> (r: RegistrationRequest)
    requires
        id_entropy@.len() >= 22,
        suffix_entropy@.len() >= 134,
    ensures
        r.key@ == public_key@,
        r.tos@ == tos@,
        r.install_id@ == random_string_spec(22, id_entropy@),
        r.fcm_token@ == fcm_token_spec(
            random_string_spec(22, id_entropy@),
            random_string_spec(134, suffix_entropy@),
        ),
{
    let install_id = generate_random_string(22, id_entropy);
    let suffix = generate_random_string(134, suffix_entropy);
    let mut fcm_token = install_id.clone();
    fcm_token.append(":APA91b");
    fcm_token.append(suffix.as_str());
    RegistrationRequest {
        key: String::from_str(public_key),
        install_id,
        fcm_token,
        tos: String::from_str(tos),
    }
}

/// Relies on chrono's `Utc::now` and `DateTime::to_rfc3339`: the current
/// instant, formatted as an RFC 3339 timestamp. The value depends on the
/// clock, so nothing is promised of it.
#[verifier::external_body]
fn now_rfc3339() -> String {
    chrono::Utc::now().to_rfc3339()
}

/// Composes the registration request for a freshly generated public key,
/// with the terms-of-service timestamp captured at call time. Everything but
/// the timestamp is pinned down; of the timestamp, which depends on the
/// clock, nothing is promised.
pub fn generate_warp_request_body(
    public_key: &str,
    id_entropy: &Vec<u8>,
    suffix_entropy: &Vec<u8>,
) -> (r: RegistrationRequest)
    requires
        id_entropy@.len() >= 22,
        suffix_entropy@.len() >= 134,
    ensures
        r.key@ == public_key@,
        r.install_id@ == random_string_spec(22, id_entropy@),
        r.fcm_token@ == fcm_token_spec(
            random_string_spec(22, id_entropy@),
            random_string_spec(134, suffix_entropy@),
        ),
{
    let tos = now_rfc3339();
    build_registration_request(public_key, tos.as_str(), id_entropy, suffix_entropy)
}

} // verus!
