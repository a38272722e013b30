//! Synthesis of the WireGuard configuration text: path-aware decoding of the
//! provisioning response and rendering of the fixed text template.

use vstd::prelude::*;
use vstd::string::StringExecFns;
use crate::json::{get_field, JsonValue};

verus! {

/// The decoder's failure: the response does not match the expected schema at
/// the given path. A config is never partially rendered.
#[derive(Debug, Clone, PartialEq, Eq)]
pub enum ParseError {
    MalformedResponse(String),
}

/// The WireGuard configuration text for the given field values: an
/// `[Interface]` stanza and a `[Peer]` stanza, one blank line between them,
/// no trailing terminator.
pub open spec fn config_text_spec(
    private_key: Seq<char>,
    addresses: Seq<char>,
    dns: Seq<char>,
    peer_public_key: Seq<char>,
    endpoint: Seq<char>,
) -> Seq<char> {
    "[Interface]\nPrivateKey = "@ + private_key + "\nAddress = "@ + addresses + "\nDNS = "@ + dns
        + "\n\n[Peer]\nPublicKey = "@ + peer_public_key
        + "\nAllowedIPs = 0.0.0.0/0, ::/0\nEndpoint = "@ + endpoint
}

/// What the decoder reads out of a provisioning response, or the first path
/// at which the response deviates from the expected schema. The navigation
/// is `config` (an object), `config.peers` (a non-empty array whose first
/// element carries `public_key` as a string), then
/// `config.interface.addresses` (an object with string members `v4` and
/// `v6`). The result triple is peer public key, `v4`, `v6`.
pub open spec fn extract_response(data: JsonValue) -> Result<
    (Seq<char>, Seq<char>, Seq<char>),
    Seq<char>,
> {
    match get_field(data, "config"@) {
        Option::None => Result::Err("config"@),
        Option::Some(config) => {
            if !(config is Obj) {
                Result::Err("config"@)
            } else {
                match get_field(config, "peers"@) {
                    Option::None => Result::Err("config.peers"@),
                    Option::Some(peers) => match peers {
                        JsonValue::Arr(items) => {
                            if items@.len() == 0 {
                                Result::Err("config.peers"@)
                            } else {
                                match get_field(items@[0], "public_key"@) {
                                    Option::Some(JsonValue::Str(pk)) => extract_addresses(
                                        config,
                                        pk@,
                                    ),
                                    _ => Result::Err("config.peers[0].public_key"@),
                                }
                            }
                        },
                        _ => Result::Err("config.peers"@),
                    },
                }
            }
        },
    }
}

/// The address half of the navigation, once the peer public key is in hand.
pub open spec fn extract_addresses(config: JsonValue, peer_key: Seq<char>) -> Result<
    (Seq<char>, Seq<char>, Seq<char>),
    Seq<char>,
> {
    match get_field(config, "interface"@) {
        Option::None => Result::Err("config.interface"@),
        Option::Some(interface) => match get_field(interface, "addresses"@) {
            Option::None => Result::Err("config.interface.addresses"@),
            Option::Some(addresses) => {
                if !(addresses is Obj) {
                    Result::Err("config.interface.addresses"@)
                } else {
                    match get_field(addresses, "v4"@) {
                        Option::Some(JsonValue::Str(v4)) => match get_field(addresses, "v6"@) {
                            Option::Some(JsonValue::Str(v6)) => Result::Ok((peer_key, v4@, v6@)),
                            _ => Result::Err("config.interface.addresses.v6"@),
                        },
                        _ => Result::Err("config.interface.addresses.v4"@),
                    }
                }
            },
        },
    }
}

/// The configuration text owed for a response: the extracted host addresses
/// with their single-host CIDR suffixes, the fixed DNS servers, the peer's
/// public key and the caller's endpoint laid into the template — or the path
/// at which the response is malformed.
pub open spec fn synth_config_spec(
    data: JsonValue,
    private_key: Seq<char>,
    endpoint: Seq<char>,
) -> Result<Seq<char>, Seq<char>> {
    match extract_response(data) {
        Result::Ok(t) => Result::Ok(
            config_text_spec(
                private_key,
                t.1 + "/32, "@ + t.2 + "/128"@,
                "1.1.1.1, 8.8.8.8"@,
                t.0,
                endpoint,
            ),
        ),
        Result::Err(p) => Result::Err(p),
    }
}

/// Renders the WireGuard configuration text from its five fields, exactly as
/// `config_text_spec` states.
pub fn generate_config(
    account_private_key: &str,
    addresses_with_cidr: &str,
    dns: &str,
    account_peer_public_key: &str,
    endpoint: &str,
) -> (r: String)
    ensures
        r@ == config_text_spec(
            account_private_key@,
            addresses_with_cidr@,
            dns@,
            account_peer_public_key@,
            endpoint@,
        ),
{
    let mut r = String::from_str("[Interface]\nPrivateKey = ");
    r.append(account_private_key);
    r.append("\nAddress = ");
    r.append(addresses_with_cidr);
    r.append("\nDNS = ");
    r.append(dns);
    r.append("\n\n[Peer]\nPublicKey = ");
    r.append(account_peer_public_key);
    r.append("\nAllowedIPs = 0.0.0.0/0, ::/0\nEndpoint = ");
    r.append(endpoint);
    r
}

/// Decodes a provisioning response and renders the configuration text, with
/// the private key and endpoint supplied by the caller. Succeeds exactly on
/// responses that match the expected schema; any deviation fails with the
/// path at which it lies, as `synth_config_spec` states.
pub fn generate_config_from_account(data: &JsonValue, private_key: &str, endpoint: &str) -> (r:
    Result<String, ParseError>)
    ensures
        match r {
            Ok(cfg) => synth_config_spec(*data, private_key@, endpoint@) == Result::<
                Seq<char>,
                Seq<char>,
            >::Ok(cfg@),
            Err(e) => (e matches ParseError::MalformedResponse(p) && synth_config_spec(
                *data,
                private_key@,
                endpoint@,
            ) == Result::<Seq<char>, Seq<char>>::Err(p@)),
        },
{
    let config = match data.get("config") {
        Some(c) => c,
        None => {
            return Err(ParseError::MalformedResponse(String::from_str("config")));
        },
    };
    match config {
        JsonValue::Obj(_) => {},
        _ => {
            return Err(ParseError::MalformedResponse(String::from_str("config")));
        },
    }
    let peers = match config.get("peers") {
        Some(p) => p,
        None => {
            return Err(ParseError::MalformedResponse(String::from_str("config.peers")));
        },
    };
    let items = match peers {
        JsonValue::Arr(items) => items,
        _ => {
            return Err(ParseError::MalformedResponse(String::from_str("config.peers")));
        },
    };
    if items.len() == 0 {
        return Err(ParseError::MalformedResponse(String::from_str("config.peers")));
    }
    let peer_public_key: &String = match items[0].get("public_key") {
        Some(v) => match v {
            JsonValue::Str(s) => s,
            _ => {
                return Err(
                    ParseError::MalformedResponse(
                        String::from_str("config.peers[0].public_key"),
                    ),
                );
            },
        },
        None => {
            return Err(
                ParseError::MalformedResponse(String::from_str("config.peers[0].public_key")),
            );
        },
    };
    let interface = match config.get("interface") {
        Some(i) => i,
        None => {
            return Err(ParseError::MalformedResponse(String::from_str("config.interface")));
        },
    };
    let addresses = match interface.get("addresses") {
        Some(a) => a,
        None => {
            return Err(
                ParseError::MalformedResponse(String::from_str("config.interface.addresses")),
            );
        },
    };
    match addresses {
        JsonValue::Obj(_) => {},
        _ => {
            return Err(
                ParseError::MalformedResponse(String::from_str("config.interface.addresses")),
            );
        },
    }
    let v4: &String = match addresses.get("v4") {
        Some(v) => match v {
            JsonValue::Str(s) => s,
            _ => {
                return Err(
                    ParseError::MalformedResponse(
                        String::from_str("config.interface.addresses.v4"),
                    ),
                );
            },
        },
        None => {
            return Err(
                ParseError::MalformedResponse(String::from_str("config.interface.addresses.v4")),
            );
        },
    };
    let v6: &String = match addresses.get("v6") {
        Some(v) => match v {
            JsonValue::Str(s) => s,
            _ => {
                return Err(
                    ParseError::MalformedResponse(
                        String::from_str("config.interface.addresses.v6"),
                    ),
                );
            },
        },
        None => {
            return Err(
                ParseError::MalformedResponse(String::from_str("config.interface.addresses.v6")),
            );
        },
    };
    let mut wg_addresses = v4.clone();
    wg_addresses.append("/32, ");
    wg_addresses.append(v6.as_str());
    wg_addresses.append("/128");
    let cfg = generate_config(
        private_key,
        wg_addresses.as_str(),
        "1.1.1.1, 8.8.8.8",
        peer_public_key.as_str(),
        endpoint,
    );
    Ok(cfg)
}

} // verus!
