use ed25519_dalek::{Signature, SigningKey, Verifier, VerifyingKey};
use ticket_signer::claims::{canonicalize, claims_from_ticket, ClaimsPolicy};
use ticket_signer::decode::{decode_signed_ticket, read_varint};
use ticket_signer::config::{default_ip, default_path_signing_key_file, default_port};
use ticket_signer::messages::{SignedTicket, Ticket, Timestamp};
use ticket_signer::qr::{make_qr_code, QrError, MAX_CODE_PAYLOAD};
use ticket_signer::validation::{
    qr_response, OutputMode, SignTicketRequest, SignTicketResponse, Status, ValidationApp,
};
use ticket_signer::wire::int64_value;

const SECRET: [u8; 32] = [7u8; 32];

fn t0() -> Timestamp {
    Timestamp { seconds: 1_700_000_000, nanos: 0 }
}

fn sample_ticket() -> Ticket {
    Ticket {
        id: "T1".to_string(),
        flight_id: "F1".to_string(),
        passenger: "Alice".to_string(),
        reservation_datetime: Some(t0()),
    }
}

fn expected_claims_bytes() -> Vec<u8> {
    let mut v = vec![0x0a, 2, b'T', b'1', 0x12, 4, 0x0a, 2, b'F', b'1', 0x1a, 5];
    v.extend_from_slice(b"Alice");
    v.extend_from_slice(&[0x22, 6, 8, 128, 226, 207, 170, 6]);
    v
}

fn package_of(app: &ValidationApp, ticket: Ticket) -> SignedTicket {
    match app.sign_ticket(SignTicketRequest { ticket: Some(ticket) }) {
        Ok(SignTicketResponse::Ticket(p)) => p,
        _ => panic!("expected a signed ticket"),
    }
}

fn published_key(app: &ValidationApp) -> VerifyingKey {
    let keys = app.get_verification_keys().verification_keys;
    assert_eq!(keys.len(), 1);
    let bytes: [u8; 32] = keys[0].clone().try_into().unwrap();
    VerifyingKey::from_bytes(&bytes).unwrap()
}

#[test]
fn timestamp_wire_bytes() {
    assert_eq!(t0().encode_to_vec(), vec![8, 128, 226, 207, 170, 6]);
    assert_eq!(Timestamp { seconds: 0, nanos: 0 }.encode_to_vec(), Vec::<u8>::new());
    assert_eq!(Timestamp { seconds: 0, nanos: 5 }.encode_to_vec(), vec![16, 5]);
    let mut neg = vec![8];
    neg.extend_from_slice(&[0xff; 9]);
    neg.push(1);
    assert_eq!(Timestamp { seconds: -1, nanos: 0 }.encode_to_vec(), neg);
}

#[test]
fn twos_complement_values() {
    assert_eq!(int64_value(5), 5);
    assert_eq!(int64_value(-1), u64::MAX);
    assert_eq!(int64_value(i64::MIN), 1u64 << 63);
}

#[test]
fn selected_claims_bytes() {
    assert_eq!(canonicalize(sample_ticket(), ClaimsPolicy::SelectedClaims), expected_claims_bytes());
    let claims = claims_from_ticket(sample_ticket());
    assert_eq!(claims.encode_to_vec(), expected_claims_bytes());
}

#[test]
fn whole_ticket_bytes() {
    let mut expected = vec![0x0a, 2, b'T', b'1', 0x12, 2, b'F', b'1', 0x1a, 5];
    expected.extend_from_slice(b"Alice");
    expected.extend_from_slice(&[0x22, 6, 8, 128, 226, 207, 170, 6]);
    assert_eq!(canonicalize(sample_ticket(), ClaimsPolicy::WholeTicket), expected);
}

#[test]
fn empty_ticket_bytes() {
    let empty = Ticket {
        id: String::new(),
        flight_id: String::new(),
        passenger: String::new(),
        reservation_datetime: None,
    };
    assert_eq!(canonicalize(empty.clone(), ClaimsPolicy::WholeTicket), Vec::<u8>::new());
    assert_eq!(canonicalize(empty, ClaimsPolicy::SelectedClaims), vec![0x12, 0]);
}

#[test]
fn canonical_bytes_repeatable() {
    for policy in [ClaimsPolicy::SelectedClaims, ClaimsPolicy::WholeTicket] {
        let a = canonicalize(sample_ticket(), policy);
        let b = canonicalize(sample_ticket(), policy);
        assert_eq!(a, b);
    }
}

#[test]
fn sample_ticket_signature_verifies() {
    let app = ValidationApp::with_modes(SECRET, ClaimsPolicy::SelectedClaims, OutputMode::Package);
    let package = package_of(&app, sample_ticket());
    assert_eq!(package.ticket, expected_claims_bytes());
    assert_eq!(package.signature.len(), 64);
    let signature = Signature::from_slice(&package.signature).unwrap();
    let key = published_key(&app);
    assert!(key.verify(&expected_claims_bytes(), &signature).is_ok());
    let expected = SigningKey::from_bytes(&SECRET).verifying_key();
    assert_eq!(key, expected);
}

#[test]
fn signature_rejects_other_payload_or_key() {
    let app = ValidationApp::with_modes(SECRET, ClaimsPolicy::SelectedClaims, OutputMode::Package);
    let package = package_of(&app, sample_ticket());
    let signature = Signature::from_slice(&package.signature).unwrap();
    let mut other_payload = package.ticket.clone();
    other_payload[2] = b'X';
    assert!(published_key(&app).verify(&other_payload, &signature).is_err());
    let other = ValidationApp::with_modes([9u8; 32], ClaimsPolicy::SelectedClaims, OutputMode::Package);
    assert!(published_key(&other).verify(&package.ticket, &signature).is_err());
}

#[test]
fn missing_ticket_is_rejected() {
    for output in [OutputMode::Image, OutputMode::Package] {
        let app = ValidationApp::with_modes(SECRET, ClaimsPolicy::SelectedClaims, output);
        let r = app.sign_ticket(SignTicketRequest { ticket: None });
        assert!(matches!(r, Err(Status::InvalidArgument)));
    }
    assert_eq!(Status::InvalidArgument.message(), "Ticket is required");
    let cause = QrError::QrCreationError(qrcode::types::QrError::DataTooLong);
    assert_eq!(Status::Internal(cause).message(), "Error creating QR code");
}

#[test]
fn verification_keys_repeat() {
    let app = ValidationApp::new(SECRET);
    let a = app.get_verification_keys().verification_keys;
    let b = app.get_verification_keys().verification_keys;
    assert_eq!(a, b);
    assert_eq!(a, vec![SigningKey::from_bytes(&SECRET).verifying_key().to_bytes().to_vec()]);
}

#[test]
fn qr_image_round_trip() {
    let app = ValidationApp::new(SECRET);
    let png = match app.sign_ticket(SignTicketRequest { ticket: Some(sample_ticket()) }) {
        Ok(SignTicketResponse::Qr(png)) => png,
        _ => panic!("expected a QR image"),
    };
    let package = package_of(
        &ValidationApp::with_modes(SECRET, ClaimsPolicy::SelectedClaims, OutputMode::Package),
        sample_ticket(),
    );
    let text = base64::Engine::encode(&base64::engine::general_purpose::STANDARD, package.encode_to_vec());
    let expected = qrcode::QrCode::new(text.as_bytes())
        .unwrap()
        .render::<image::Luma<u8>>()
        .module_dimensions(1, 1)
        .build();
    let decoded = image::load_from_memory(&png).unwrap().to_luma8();
    assert_eq!(decoded.dimensions(), expected.dimensions());
    assert_eq!(decoded.into_raw(), expected.into_raw());

    let blob = base64::Engine::decode(&base64::engine::general_purpose::STANDARD, text).unwrap();
    let decoded = decode_signed_ticket(&blob).unwrap();
    assert_eq!(decoded.ticket, expected_claims_bytes());
    let signature = Signature::from_slice(&decoded.signature).unwrap();
    assert!(published_key(&app).verify(&decoded.ticket, &signature).is_ok());
}

#[test]
fn qr_code_text_is_base64_of_package() {
    let package = SignedTicket { ticket: vec![1, 2, 3], signature: vec![4] };
    assert_eq!(package.encode_to_vec(), vec![0x0a, 3, 1, 2, 3, 0x12, 1, 4]);
    let png = make_qr_code(package).unwrap();
    let expected = qrcode::QrCode::new("CgMBAgMSAQQ=".as_bytes())
        .unwrap()
        .render::<image::Luma<u8>>()
        .module_dimensions(1, 1)
        .build();
    let decoded = image::load_from_memory(&png).unwrap().to_luma8();
    assert_eq!(decoded.into_raw(), expected.into_raw());
}

#[test]
fn oversized_payload_fails() {
    let package = SignedTicket { ticket: vec![0xab; MAX_CODE_PAYLOAD + 100], signature: vec![1; 64] };
    assert!(matches!(
        make_qr_code(package),
        Err(QrError::QrCreationError(qrcode::types::QrError::DataTooLong))
    ));
    let package = SignedTicket { ticket: vec![0xab; 4000], signature: vec![1; 64] };
    assert!(matches!(
        make_qr_code(package),
        Err(QrError::QrCreationError(qrcode::types::QrError::DataTooLong))
    ));
    let package = SignedTicket { ticket: vec![0xab; 100], signature: vec![1; 64] };
    assert!(make_qr_code(package).is_ok());
}

#[test]
fn qr_response_maps_outcomes() {
    assert!(matches!(qr_response(Ok(vec![1, 2])), Ok(SignTicketResponse::Qr(v)) if v == vec![1, 2]));
    let io = std::io::Error::new(std::io::ErrorKind::Other, "disk");
    let write_error = QrError::ImageWriteError(image::ImageError::IoError(io));
    assert!(matches!(
        qr_response(Err(write_error)),
        Err(Status::Internal(QrError::ImageWriteError(_)))
    ));
    let creation_error = QrError::QrCreationError(qrcode::types::QrError::DataTooLong);
    assert!(matches!(
        qr_response(Err(creation_error)),
        Err(Status::Internal(QrError::QrCreationError(_)))
    ));
}

#[test]
fn oversized_ticket_answers_internal() {
    let mut ticket = sample_ticket();
    ticket.passenger = "x".repeat(6000);
    let app = ValidationApp::new(SECRET);
    let r = app.sign_ticket(SignTicketRequest { ticket: Some(ticket) });
    assert!(matches!(r, Err(Status::Internal(QrError::QrCreationError(_)))));
}

#[test]
fn config_defaults() {
    assert_eq!(default_ip(), [0, 0, 0, 0]);
    assert_eq!(default_port(), 50051);
    assert_eq!(default_path_signing_key_file(), "sign.pem");
}

#[test]
fn varint_reads() {
    assert_eq!(read_varint(&[0xac, 0x02, 0x07], 0), Some((300, 2)));
    assert_eq!(read_varint(&[0x07, 0x01], 1), Some((1, 2)));
    assert_eq!(read_varint(&[0x80], 0), None);
    assert_eq!(read_varint(&[0x80, 0x00], 0), None);
    let mut max = vec![0xff; 9];
    max.push(0x01);
    assert_eq!(read_varint(&max, 0), Some((u64::MAX, 10)));
    let mut too_big = vec![0xff; 9];
    too_big.push(0x02);
    assert_eq!(read_varint(&too_big, 0), None);
}

#[test]
fn signed_ticket_decodes_back() {
    let package = SignedTicket { ticket: vec![5; 300], signature: vec![9; 64] };
    let decoded = decode_signed_ticket(&package.encode_to_vec()).unwrap();
    assert_eq!(decoded.ticket, vec![5; 300]);
    assert_eq!(decoded.signature, vec![9; 64]);
    let empty = decode_signed_ticket(&[]).unwrap();
    assert!(empty.ticket.is_empty() && empty.signature.is_empty());
    let only_signature = decode_signed_ticket(&[0x12, 1, 4]).unwrap();
    assert!(only_signature.ticket.is_empty());
    assert_eq!(only_signature.signature, vec![4]);
}

#[test]
fn signed_ticket_rejects_other_forms() {
    assert!(decode_signed_ticket(&[0x0a, 0]).is_none());
    assert!(decode_signed_ticket(&[0x12, 1, 4, 0x0a, 1, 3]).is_none());
    assert!(decode_signed_ticket(&[0x0a, 3, 1, 2]).is_none());
    assert!(decode_signed_ticket(&[0x0a, 1, 1, 0x00]).is_none());
}

#[test]
fn qr_image_repeatable() {
    let app = ValidationApp::new(SECRET);
    let image_of = || match app.sign_ticket(SignTicketRequest { ticket: Some(sample_ticket()) }) {
        Ok(SignTicketResponse::Qr(png)) => png,
        _ => panic!("expected a QR image"),
    };
    let first = image_of();
    assert_eq!(&first[..8], &[0x89, b'P', b'N', b'G', 0x0d, 0x0a, 0x1a, 0x0a]);
    assert_eq!(first, image_of());
}
