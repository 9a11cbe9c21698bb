use solana_tools::keypair::{generate_keypair, keypair_data};
use solana_tools::message::{sign_message, verify_message, SignMessageRequest, VerifyMessageRequest};
use solana_tools::token::{create_token, mint_token, CreateTokenRequest, MintTokenRequest};
use solana_tools::transfer::{error_response, send_sol, send_token, SendSolRequest, SendTokenRequest};

const SYSTEM: &str = "11111111111111111111111111111111";
const TOKEN_PROGRAM: &str = "TokenkegQfeZyiNwAJbNbGKPFXCWuBvf9Ss623VQ5DA";
const RENT: &str = "SysvarRent111111111111111111111111111111111";
const WSOL: &str = "So11111111111111111111111111111111111111112";

fn fresh_pubkey() -> String {
    generate_keypair().data.pubkey
}

fn sign(message: &str, secret: &str) -> solana_tools::keypair::ApiResponse<solana_tools::message::SignMessageResponse> {
    sign_message(SignMessageRequest { message: message.to_string(), secret: secret.to_string() })
}

fn verify(message: &str, signature: &str, pubkey: &str) -> solana_tools::keypair::ApiResponse<solana_tools::message::VerifyMessageData> {
    verify_message(VerifyMessageRequest {
        message: message.to_string(),
        signature: signature.to_string(),
        pubkey: pubkey.to_string(),
    })
}

#[test]
fn keypair_texts_decode_to_their_bytes() {
    for _ in 0..8 {
        let r = generate_keypair();
        assert!(r.success);
        let public = bs58::decode(&r.data.pubkey).into_vec().unwrap();
        let secret = bs58::decode(&r.data.secret).into_vec().unwrap();
        assert_eq!(public.len(), 32);
        assert_eq!(secret.len(), 64);
        assert_eq!(&secret[32..], &public[..]);
    }
}

#[test]
fn keypair_data_of_zero_bytes() {
    let d = keypair_data(&[0u8; 64]);
    assert_eq!(d.pubkey, "1".repeat(32));
    assert_eq!(d.secret, "1".repeat(64));
}

#[test]
fn sign_then_verify_holds() {
    for message in ["", "hello", "Grüße, 世界", "a longer message with spaces and digits 0123456789"] {
        let kp = generate_keypair();
        let s = sign(message, &kp.data.secret);
        assert!(s.success);
        assert_eq!(s.data.message, message);
        assert_eq!(s.data.public_key, kp.data.pubkey);
        assert_eq!(base64::Engine::decode(&base64::engine::general_purpose::STANDARD, &s.data.signature).unwrap().len(), 64);
        let v = verify(message, &s.data.signature, &kp.data.pubkey);
        assert!(v.success);
        assert!(v.data.valid);
        assert_eq!(v.data.message, message);
        assert_eq!(v.data.pubkey, kp.data.pubkey);
    }
}

#[test]
fn tampered_message_does_not_verify() {
    let kp = generate_keypair();
    let message = "transfer 100 to alice";
    let s = sign(message, &kp.data.secret);
    for i in 0..message.len() {
        let mut bytes = message.as_bytes().to_vec();
        bytes[i] ^= 0x01;
        let tampered = String::from_utf8(bytes).unwrap();
        let v = verify(&tampered, &s.data.signature, &kp.data.pubkey);
        assert!(v.success);
        assert!(!v.data.valid);
    }
}

#[test]
fn signature_under_another_key_does_not_verify() {
    let a = generate_keypair();
    let b = generate_keypair();
    let s = sign("hello", &a.data.secret);
    let v = verify("hello", &s.data.signature, &b.data.pubkey);
    assert!(v.success);
    assert!(!v.data.valid);
}

#[test]
fn short_secret_is_refused() {
    let secret = bs58::encode([7u8; 32]).into_string();
    let s = sign("hello", &secret);
    assert!(!s.success);
    assert_eq!(s.data.signature, "");
    assert_eq!(s.data.public_key, "");
    assert_eq!(s.data.message, "Invalid or malformed secret key (expected 64-byte base58)");
}

#[test]
fn undecodable_secret_is_refused() {
    let s = sign("hello", "not-base58-0OIl");
    assert!(!s.success);
    assert_eq!(s.data.message, "Invalid or malformed secret key (expected 64-byte base58)");
}

#[test]
fn secret_with_invalid_public_half_is_refused() {
    let mut refused = 0;
    let mut signed = 0;
    for y in 2u8..=60 {
        let mut bytes = [0u8; 64];
        bytes[32] = y;
        let s = sign("hello", &bs58::encode(bytes).into_string());
        if s.success {
            signed += 1;
            assert_eq!(s.data.public_key, bs58::encode(&bytes[32..]).into_string());
        } else {
            refused += 1;
            assert_eq!(s.data.signature, "");
            assert_eq!(s.data.public_key, "");
            assert_eq!(s.data.message, "Failed to parse secret key into Keypair");
        }
    }
    assert!(refused > 0);
    assert!(signed > 0);
}

#[test]
fn non_base58_pubkey_is_refused() {
    let v = verify("hello", "AAAA", "0OIl+/");
    assert!(!v.success);
    assert!(!v.data.valid);
    assert_eq!(v.data.pubkey, "0OIl+/");
    assert_eq!(v.data.message, "Invalid base58 pubkey");
}

#[test]
fn short_pubkey_is_refused() {
    let v = verify("hello", "AAAA", "Ldp");
    assert!(!v.success);
    assert!(!v.data.valid);
    assert_eq!(v.data.pubkey, "Ldp");
    assert_eq!(v.data.message, "Failed to parse pubkey");
}

#[test]
fn non_base64_signature_is_refused() {
    let kp = generate_keypair();
    let v = verify("hello", "!!not base64!!", &kp.data.pubkey);
    assert!(!v.success);
    assert!(!v.data.valid);
    assert_eq!(v.data.pubkey, kp.data.pubkey);
    assert_eq!(v.data.message, "Invalid base64 signature");
}

#[test]
fn malformed_signature_is_refused() {
    let kp = generate_keypair();
    let short = base64::Engine::encode(&base64::engine::general_purpose::STANDARD, [1u8; 10]);
    let v = verify("hello", &short, &kp.data.pubkey);
    assert!(!v.success);
    assert_eq!(v.data.message, "Failed to parse signature");
    let high = base64::Engine::encode(&base64::engine::general_purpose::STANDARD, [0xffu8; 64]);
    let v = verify("hello", &high, &kp.data.pubkey);
    assert!(!v.success);
    assert!(!v.data.valid);
    assert_eq!(v.data.message, "Failed to parse signature");
}

#[test]
fn send_sol_builds_system_transfer() {
    let from = fresh_pubkey();
    let to = fresh_pubkey();
    let r = send_sol(SendSolRequest { from: from.clone(), to: to.clone(), lamports: 1000 });
    assert!(r.success);
    assert_eq!(r.data.program_id, SYSTEM);
    assert_eq!(r.data.accounts, vec![from, to]);
    assert_eq!(r.data.instruction_data, "AgAAAOgDAAAAAAAA");
    let data = base64::Engine::decode(&base64::engine::general_purpose::STANDARD, &r.data.instruction_data).unwrap();
    assert_eq!(data, vec![2, 0, 0, 0, 232, 3, 0, 0, 0, 0, 0, 0]);
}

#[test]
fn send_sol_reports_bad_from_first() {
    let r = send_sol(SendSolRequest { from: "bad".to_string(), to: "also bad".to_string(), lamports: 1 });
    assert!(!r.success);
    assert_eq!(r.data.program_id, "");
    assert!(r.data.accounts.is_empty());
    assert_eq!(r.data.instruction_data, "SW52YWxpZCAnZnJvbScgcHVia2V5");
}

#[test]
fn send_sol_reports_bad_to() {
    let r = send_sol(SendSolRequest { from: WSOL.to_string(), to: "x".repeat(45), lamports: 1 });
    assert!(!r.success);
    assert_eq!(r.data.instruction_data, "SW52YWxpZCAndG8nIHB1YmtleQ==");
}

#[test]
fn send_token_builds_checked_transfer() {
    let destination = fresh_pubkey();
    let owner = fresh_pubkey();
    let r = send_token(SendTokenRequest {
        destination: destination.clone(),
        mint: WSOL.to_string(),
        owner: owner.clone(),
        amount: 5000,
    });
    assert!(r.success);
    assert_eq!(r.data.program_id, TOKEN_PROGRAM);
    let accounts: Vec<(String, bool)> = r.data.accounts.iter().map(|m| (m.pubkey.clone(), m.is_signer)).collect();
    assert_eq!(accounts, vec![(owner.clone(), false), (WSOL.to_string(), false), (destination, false), (owner, true)]);
    assert_eq!(r.data.instruction_data, "DIgTAAAAAAAABg==");
}

#[test]
fn send_token_reports_each_bad_address() {
    let good = fresh_pubkey();
    let bad_destination = send_token(SendTokenRequest { destination: "?".to_string(), mint: "?".to_string(), owner: "?".to_string(), amount: 1 });
    assert!(!bad_destination.success);
    assert!(bad_destination.data.accounts.is_empty());
    assert_eq!(bad_destination.data.program_id, "");
    assert_eq!(bad_destination.data.instruction_data, "SW52YWxpZCBkZXN0aW5hdGlvbiBwdWJrZXk=");
    let bad_mint = send_token(SendTokenRequest { destination: good.clone(), mint: "?".to_string(), owner: "?".to_string(), amount: 1 });
    assert_eq!(bad_mint.data.instruction_data, "SW52YWxpZCBtaW50IHB1YmtleQ==");
    let bad_owner = send_token(SendTokenRequest { destination: good.clone(), mint: good.clone(), owner: "Ldp".to_string(), amount: 1 });
    assert!(!bad_owner.success);
    assert_eq!(bad_owner.data.instruction_data, "SW52YWxpZCBvd25lciBwdWJrZXk=");
}

#[test]
fn create_token_with_bad_mint_reports_plain_text() {
    let r = create_token(CreateTokenRequest { mint_authority: fresh_pubkey(), mint: "not a key".to_string(), decimals: 9 });
    assert!(!r.success);
    assert_eq!(r.data.program_id, "");
    assert!(r.data.accounts.is_empty());
    assert_eq!(r.data.instruction_data, "Invalid mint pubkey");
}

#[test]
fn create_token_with_bad_authority_reports_plain_text() {
    let r = create_token(CreateTokenRequest { mint_authority: "0".to_string(), mint: fresh_pubkey(), decimals: 9 });
    assert!(!r.success);
    assert_eq!(r.data.instruction_data, "Invalid mintAuthority pubkey");
}

#[test]
fn create_token_builds_initialize_mint() {
    let mint = fresh_pubkey();
    let r = create_token(CreateTokenRequest { mint_authority: WSOL.to_string(), mint: mint.clone(), decimals: 9 });
    assert!(r.success);
    assert_eq!(r.data.program_id, TOKEN_PROGRAM);
    let accounts: Vec<(String, bool, bool)> =
        r.data.accounts.iter().map(|m| (m.pubkey.clone(), m.is_signer, m.is_writable)).collect();
    assert_eq!(accounts, vec![(mint, false, true), (RENT.to_string(), false, false)]);
    assert_eq!(r.data.instruction_data, "AAkGm4hX/quBhPtof2NGGMA12sQ53BrrO1WYoPAAAAAAAQA=");
    let data = base64::Engine::decode(&base64::engine::general_purpose::STANDARD, &r.data.instruction_data).unwrap();
    let mut expected = vec![0u8, 9];
    expected.extend(bs58::decode(WSOL).into_vec().unwrap());
    expected.push(0);
    assert_eq!(data, expected);
}

#[test]
fn mint_token_builds_mint_to() {
    let mint = fresh_pubkey();
    let destination = fresh_pubkey();
    let authority = fresh_pubkey();
    let r = mint_token(MintTokenRequest {
        mint: mint.clone(),
        destination: destination.clone(),
        authority: authority.clone(),
        amount: 42,
    });
    assert!(r.success);
    assert_eq!(r.data.program_id, TOKEN_PROGRAM);
    let accounts: Vec<(String, bool, bool)> =
        r.data.accounts.iter().map(|m| (m.pubkey.clone(), m.is_signer, m.is_writable)).collect();
    assert_eq!(accounts, vec![(mint, false, true), (destination, false, true), (authority, true, false)]);
    assert_eq!(r.data.instruction_data, "ByoAAAAAAAAA");
    let data = base64::Engine::decode(&base64::engine::general_purpose::STANDARD, &r.data.instruction_data).unwrap();
    assert_eq!(data, vec![7, 42, 0, 0, 0, 0, 0, 0, 0]);
}

#[test]
fn mint_token_reports_each_bad_address() {
    let good = fresh_pubkey();
    let r = mint_token(MintTokenRequest { mint: "".to_string(), destination: good.clone(), authority: good.clone(), amount: 1 });
    assert!(!r.success);
    assert_eq!(r.data.instruction_data, "Invalid mint pubkey");
    let r = mint_token(MintTokenRequest { mint: good.clone(), destination: "".to_string(), authority: good.clone(), amount: 1 });
    assert_eq!(r.data.instruction_data, "Invalid destination pubkey");
    let r = mint_token(MintTokenRequest { mint: good.clone(), destination: good.clone(), authority: "".to_string(), amount: 1 });
    assert!(!r.success);
    assert!(r.data.accounts.is_empty());
    assert_eq!(r.data.instruction_data, "Invalid authority pubkey");
}

#[test]
fn error_response_carries_text() {
    let r = error_response("boom");
    assert!(!r.success);
    assert!(!r.data.success);
    assert_eq!(r.data.error, "boom");
}

#[test]
fn keypair_data_encodes_each_half() {
    let mut bytes = [0u8; 64];
    bytes[61] = 1;
    bytes[62] = 2;
    bytes[63] = 3;
    let d = keypair_data(&bytes);
    assert_eq!(d.pubkey, format!("{}Ldp", "1".repeat(29)));
    assert_eq!(d.secret, format!("{}Ldp", "1".repeat(61)));
}

#[test]
fn system_program_address_is_accepted() {
    let r = send_sol(SendSolRequest { from: SYSTEM.to_string(), to: WSOL.to_string(), lamports: 0 });
    assert!(r.success);
    assert_eq!(r.data.accounts, vec![SYSTEM.to_string(), WSOL.to_string()]);
    assert_eq!(r.data.instruction_data, "AgAAAAAAAAAAAAAA");
}

#[test]
fn send_token_decimals_do_not_follow_the_mint() {
    let destination = fresh_pubkey();
    let owner = fresh_pubkey();
    let other_mint = fresh_pubkey();
    let a = send_token(SendTokenRequest { destination: destination.clone(), mint: WSOL.to_string(), owner: owner.clone(), amount: 77 });
    let b = send_token(SendTokenRequest { destination, mint: other_mint.clone(), owner, amount: 77 });
    assert!(a.success && b.success);
    assert_eq!(a.data.instruction_data, b.data.instruction_data);
    assert_eq!(b.data.accounts[1].pubkey, other_mint);
    for i in [0usize, 2, 3] {
        assert_eq!(a.data.accounts[i].pubkey, b.data.accounts[i].pubkey);
        assert_eq!(a.data.accounts[i].is_signer, b.data.accounts[i].is_signer);
    }
}
