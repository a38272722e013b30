use cfwgen::json::JsonValue;
use cfwgen::keys::key_pair_from_jwk_coords;
use cfwgen::pipeline::{compose_after_keygen, finish_after_response, PipelineError};

#[test]
fn crypto_failure_composes_no_request() {
    let id_entropy = vec![0u8; 22];
    let suffix_entropy = vec![0u8; 134];
    let r = compose_after_keygen(Err("crypto unavailable".to_string()), &id_entropy, &suffix_entropy);
    match r {
        Err(PipelineError::Crypto(cause)) => assert_eq!(cause, "crypto unavailable"),
        _ => panic!("a failed key export must end the run with a crypto error"),
    }
}

#[test]
fn successful_export_yields_key_pair_and_request() {
    let id_entropy = vec![0u8; 22];
    let suffix_entropy = vec![0u8; 134];
    let export = Ok((
        "HcRk2NDnlHwpPLgREHoSvjA-nhOadmPRlwlOtvYT-30".to_string(),
        "qMVtZkd0kUAVvvvK-anQ1Jhx7eNYSMUo2a3Ln8T1_0c".to_string(),
    ));
    let (kp, req) = compose_after_keygen(export, &id_entropy, &suffix_entropy).expect("composes");
    assert_eq!(kp.public_key, "HcRk2NDnlHwpPLgREHoSvjA+nhOadmPRlwlOtvYT+30=");
    assert_eq!(kp.private_key, "qMVtZkd0kUAVvvvK+anQ1Jhx7eNYSMUo2a3Ln8T1/0c=");
    assert_eq!(req.key, kp.public_key);
    assert_eq!(req.install_id, "A".repeat(22));
}

#[test]
fn distinct_exports_yield_distinct_key_pairs() {
    // Each run draws a fresh pair from the host provider; distinct exports
    // never collapse into the same registered keys.
    let a = key_pair_from_jwk_coords("firstExport-_A", "firstScalar-_B");
    let b = key_pair_from_jwk_coords("otherExport-_C", "otherScalar-_D");
    assert_ne!(a.public_key, b.public_key);
    assert_ne!(a.private_key, b.private_key);
}

#[test]
fn transport_failure_surfaces_as_network_error() {
    let r = finish_after_response(Err("status 530".to_string()), "PK==", "host:1");
    match r {
        Err(PipelineError::Network(cause)) => assert_eq!(cause, "status 530"),
        _ => panic!("a transport failure must surface as a network error"),
    }
}

#[test]
fn received_document_is_rendered() {
    let peer = JsonValue::Obj(vec![(
        "public_key".to_string(),
        JsonValue::Str("PEERKEYBASE64==".to_string()),
    )]);
    let addresses = JsonValue::Obj(vec![
        ("v4".to_string(), JsonValue::Str("1.2.3.4".to_string())),
        ("v6".to_string(), JsonValue::Str("::1".to_string())),
    ]);
    let config = JsonValue::Obj(vec![
        ("peers".to_string(), JsonValue::Arr(vec![peer])),
        (
            "interface".to_string(),
            JsonValue::Obj(vec![("addresses".to_string(), addresses)]),
        ),
    ]);
    let data = JsonValue::Obj(vec![("config".to_string(), config)]);
    let cfg = finish_after_response(Ok(data), "PRIVKEYBASE64==", "162.159.192.1:2408")
        .expect("well-formed response");
    assert_eq!(
        cfg,
        "[Interface]\nPrivateKey = PRIVKEYBASE64==\nAddress = 1.2.3.4/32, ::1/128\nDNS = 1.1.1.1, 8.8.8.8\n\n[Peer]\nPublicKey = PEERKEYBASE64==\nAllowedIPs = 0.0.0.0/0, ::/0\nEndpoint = 162.159.192.1:2408"
    );
}

#[test]
fn malformed_document_fails_with_its_path() {
    let r = finish_after_response(Ok(JsonValue::Null), "PK==", "host:1");
    match r {
        Err(PipelineError::Parse(e)) => {
            let cfwgen::config::ParseError::MalformedResponse(p) = e;
            assert_eq!(p, "config");
        }
        _ => panic!("a malformed document must fail with its path"),
    }
}
