use medici_orders::auth::{
    check_registration, recovered_signer, register_in_table, registration_after_insert,
    registration_after_lookup, registration_from_signer, signer_text, store_registration,
};
use medici_orders::ds::{Auth, UserAuthenticationSetup};
use medici_orders::error_logging::site_error_text;

fn request(signature: [u8; 65]) -> UserAuthenticationSetup {
    UserAuthenticationSetup {
        user_pubkey: [0x11; 64],
        user_address: [0x22; 20],
        signature,
        signed_msg: "log me in".to_string(),
        email: Some("a@b.c".to_string()),
        twitter: None,
    }
}

#[test]
fn registration_refuses_signature_field() {
    let expected = site_error_text("hex", "register_user", "diesel_postgres", "60", "failed to decode signature into hexcode");
    assert_eq!(check_registration(&request([0u8; 65])).unwrap_err(), expected);
    // Even bytes that are hexadecimal digits are refused: 65 digits are odd.
    assert_eq!(check_registration(&request([b'a'; 65])).unwrap_err(), expected);
}

fn login() -> Auth {
    Auth {
        user_pubkey: "0x1111\u{2026}1111".to_string(),
        user_address: "0x2222\u{2026}2222".to_string(),
        email: None,
        twitter: Some("@me".to_string()),
    }
}

#[test]
fn registration_inserts_new_address_only() {
    let r = registration_after_lookup(login(), Some(vec![]));
    let row = r.unwrap().unwrap();
    assert_eq!(row.user_address, "0x2222\u{2026}2222");
    assert_eq!(row.twitter.as_deref(), Some("@me"));
    let r = registration_after_lookup(login(), Some(vec!["0x2222\u{2026}2222".to_string()]));
    assert!(r.unwrap().is_none());
}

#[test]
fn registration_lookup_and_insert_failures() {
    let e = registration_after_lookup(login(), None).unwrap_err();
    assert_eq!(e, site_error_text("Diesel", "register_user", "diesel_postgres", "90", "Failed to query select statement from Postgres"));
    assert_eq!(registration_after_insert(true), Ok(()));
    let e = registration_after_insert(false).unwrap_err();
    assert_eq!(e, site_error_text("Diesel", "register_user", "diesel_postgres", "90", "Failed to insert user to table in Postgres"));
}

fn reference_signer_text(message: &str, signature: &[u8]) -> String {
    let digest = web3::signing::keccak256(
        format!("{}{}{}", "\x19Ethereum Signed Message:\n", message.len(), message).as_bytes(),
    );
    let recovered = web3::signing::recover(&digest, &signature[..64], 0).map_err(|_| {
        site_error_text("web3", "register_user", "diesel_postgres", "70", "failed to recover public key from message and signature")
    });
    format!("{:02X?}", recovered)
}

#[test]
fn recovered_signer_of_invalid_signature() {
    let sig = [0u8; 64];
    let text = recovered_signer(&"hi".to_string(), &sig);
    assert!(text.starts_with("Err(\""));
    assert_eq!(text, reference_signer_text("hi", &sig));
}

#[test]
fn recovered_signer_of_curve_point() {
    let mut sig = [0u8; 65];
    let gx = hex::decode("79BE667EF9DCBBAC55A06295CE870B07029BFCDB2DCE28D959F2815B16F81798").unwrap();
    sig[..32].copy_from_slice(&gx);
    sig[63] = 1;
    let text = recovered_signer(&"hello".to_string(), &sig);
    assert!(text.starts_with("Ok(0x"));
    assert_eq!(text.len(), "Ok(0x".len() + 40 + 1);
    assert_eq!(text, reference_signer_text("hello", &sig));
}

#[test]
fn signer_text_of_outcomes() {
    let a = [0xabu8; 20];
    assert_eq!(signer_text(Some(a)), format!("Ok(0x{})", "ab".repeat(20)));
    assert_eq!(signer_text(Some(a)), format!("{:02X?}", Ok::<_, String>(ethereum_types::H160(a))));
    let err = site_error_text("web3", "register_user", "diesel_postgres", "70", "failed to recover public key from message and signature");
    assert_eq!(signer_text(None), format!("Err({:?})", err));
}

#[test]
fn registration_from_matching_and_other_signer() {
    let req = request([0u8; 65]);
    let shown = ethereum_types::H512(req.user_pubkey).to_string();
    assert_eq!(shown, "0x1111\u{2026}1111");
    let row = registration_from_signer(&req, &shown).unwrap();
    assert_eq!(row.user_pubkey, shown);
    assert_eq!(row.user_address, "0x2222\u{2026}2222");
    assert_eq!(row.email.as_deref(), Some("a@b.c"));
    assert!(row.twitter.is_none());
    let e = registration_from_signer(&req, &"Ok(0x00)".to_string()).unwrap_err();
    assert_eq!(e, site_error_text("_", "register_user", "diesel_postgres", "78", "public key given is not the same as the extracted public key"));
}

#[test]
fn recovered_signer_never_matches_key() {
    let mut sig = [0u8; 64];
    let gx = hex::decode("79BE667EF9DCBBAC55A06295CE870B07029BFCDB2DCE28D959F2815B16F81798").unwrap();
    sig[..32].copy_from_slice(&gx);
    sig[63] = 7;
    let req = request([0u8; 65]);
    for s in [sig, [0u8; 64]] {
        let text = recovered_signer(&req.signed_msg, &s);
        let e = registration_from_signer(&req, &text).unwrap_err();
        assert_eq!(e, site_error_text("_", "register_user", "diesel_postgres", "78", "public key given is not the same as the extracted public key"));
    }
}

fn stored(address: &str) -> Auth {
    Auth {
        user_pubkey: "0xaaaa\u{2026}aaaa".to_string(),
        user_address: address.to_string(),
        email: None,
        twitter: None,
    }
}

#[test]
fn storing_registrations_in_a_table() {
    let mut table = vec![stored("0x1"), stored("0x2")];
    // A new address is stored.
    assert_eq!(store_registration(&mut table, Ok(stored("0x3")), true, true), Ok(()));
    assert_eq!(table.len(), 3);
    assert_eq!(table[2].user_address, "0x3");
    // A known address is not stored again.
    assert_eq!(store_registration(&mut table, Ok(stored("0x2")), true, true), Ok(()));
    assert_eq!(table.len(), 3);
    // Failures leave the table as it was.
    assert!(store_registration(&mut table, Ok(stored("0x4")), false, true).is_err());
    assert!(store_registration(&mut table, Ok(stored("0x4")), true, false).is_err());
    assert!(store_registration(&mut table, Err("no".to_string()), true, true).is_err());
    assert_eq!(table.len(), 3);
    let addresses: Vec<&str> = table.iter().map(|r| r.user_address.as_str()).collect();
    assert_eq!(addresses, vec!["0x1", "0x2", "0x3"]);
}

#[test]
fn registering_in_a_table_is_refused() {
    let mut table = vec![stored("0x1")];
    let expected = site_error_text("hex", "register_user", "diesel_postgres", "60", "failed to decode signature into hexcode");
    assert_eq!(register_in_table(&mut table, &request([0u8; 65]), true, true), Err(expected));
    assert_eq!(table.len(), 1);
}
