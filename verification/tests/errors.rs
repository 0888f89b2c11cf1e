use secp_registers::callback::strlen;
use secp_registers::constants::{
    ENTROPY_DRAWS, EXTRA_DATA_SIZE, HASH_SIZE, PRIVATE_KEY_SIZE, PUBLIC_KEY_COMPRESSED_SIZE,
    PUBLIC_KEY_UNCOMPRESSED_SIZE, SEED_SIZE, SIGNATURE_SIZE, TWEAK_SIZE,
};
use secp_registers::error::{report, ErrorKind, Report};
use secp_registers::point::{pubkey_parse, pubkey_serialize, PublicKey, Signature};
use secp_registers::registers::Registers;

#[test]
fn codes_of_the_kinds() {
    assert_eq!(ErrorKind::BadPrivate.code(), 0);
    assert_eq!(ErrorKind::BadPoint.code(), 1);
    assert_eq!(ErrorKind::BadTweak.code(), 2);
    assert_eq!(ErrorKind::BadHash.code(), 3);
    assert_eq!(ErrorKind::BadSignature.code(), 4);
    assert_eq!(ErrorKind::BadExtraData.code(), 5);
}

#[test]
fn kinds_of_the_codes() {
    assert_eq!(ErrorKind::from_code(0), Some(ErrorKind::BadPrivate));
    assert_eq!(ErrorKind::from_code(1), Some(ErrorKind::BadPoint));
    assert_eq!(ErrorKind::from_code(2), Some(ErrorKind::BadTweak));
    assert_eq!(ErrorKind::from_code(3), Some(ErrorKind::BadHash));
    assert_eq!(ErrorKind::from_code(4), Some(ErrorKind::BadSignature));
    assert_eq!(ErrorKind::from_code(5), Some(ErrorKind::BadExtraData));
    assert_eq!(ErrorKind::from_code(6), None);
    assert_eq!(ErrorKind::from_code(usize::MAX), None);
}

#[test]
fn code_round_trip() {
    for code in 0..6 {
        assert_eq!(ErrorKind::from_code(code).unwrap().code(), code);
    }
}

#[test]
fn report_of_a_status() {
    assert_eq!(report(Ok(1)), Report { status: 1, notice: None });
    assert_eq!(report(Ok(0)), Report { status: 0, notice: None });
}

#[test]
fn report_of_an_error() {
    assert_eq!(
        report(Err(ErrorKind::BadPoint)),
        Report { status: 0, notice: Some(ErrorKind::BadPoint) }
    );
    assert_eq!(
        report(Err(ErrorKind::BadSignature)),
        Report { status: 0, notice: Some(ErrorKind::BadSignature) }
    );
}

#[test]
fn register_sizes() {
    let regs = Registers::new();
    assert_eq!(regs.private_key.len(), PRIVATE_KEY_SIZE);
    assert_eq!(regs.public_key.len(), PUBLIC_KEY_UNCOMPRESSED_SIZE);
    assert_eq!(regs.public_key2.len(), PUBLIC_KEY_UNCOMPRESSED_SIZE);
    assert_eq!(regs.tweak.len(), TWEAK_SIZE);
    assert_eq!(regs.hash.len(), HASH_SIZE);
    assert_eq!(regs.extra_data.len(), EXTRA_DATA_SIZE);
    assert_eq!(regs.signature.len(), SIGNATURE_SIZE);
    assert_eq!(PUBLIC_KEY_COMPRESSED_SIZE, 33);
    assert_eq!(SEED_SIZE, 4 * ENTROPY_DRAWS);
}

#[test]
fn registers_start_zeroed() {
    let regs = Registers::new();
    assert_eq!(regs.private_key, [0u8; 32]);
    assert_eq!(regs.public_key, [0u8; 65]);
    assert_eq!(regs.public_key2, [0u8; 65]);
    assert_eq!(regs.tweak, [0u8; 32]);
    assert_eq!(regs.hash, [0u8; 32]);
    assert_eq!(regs.extra_data, [0u8; 32]);
    assert_eq!(regs.signature, [0u8; 64]);
}

#[test]
fn fresh_slots_are_zeroed_and_writable() {
    let mut key = PublicKey::new();
    assert_eq!(key.as_ptr(), &[0u8; 65]);
    key.as_mut_ptr()[3] = 7;
    assert_eq!(key.as_ptr()[3], 7);
    let mut signature = Signature::new();
    assert_eq!(signature.as_ptr(), &[0u8; 64]);
    signature.as_mut_ptr()[63] = 9;
    assert_eq!(signature.as_ptr()[63], 9);
}

#[test]
fn pubkey_parse_gives_the_uncompressed_form() {
    let mut input = [0u8; 65];
    input[0] = 2;
    input[1..33].copy_from_slice(&[
        0x79, 0xbe, 0x66, 0x7e, 0xf9, 0xdc, 0xbb, 0xac, 0x55, 0xa0, 0x62, 0x95, 0xce, 0x87, 0x0b,
        0x07, 0x02, 0x9b, 0xfc, 0xdb, 0x2d, 0xce, 0x28, 0xd9, 0x59, 0xf2, 0x81, 0x5b, 0x16, 0xf8,
        0x17, 0x98,
    ]);
    let key = pubkey_parse(&input, 33).ok().unwrap();
    assert_eq!(key.as_ptr()[0], 4);
    assert_eq!(key.as_ptr()[1..33], input[1..33]);
    assert_eq!(key.as_ptr()[33], 0x48);
    assert_eq!(key.as_ptr()[64], 0xb8);
}

#[test]
fn pubkey_parse_reports_a_bad_point() {
    let input = [0u8; 65];
    assert!(matches!(pubkey_parse(&input, 33), Err(ErrorKind::BadPoint)));
    assert!(matches!(pubkey_parse(&input, 65), Err(ErrorKind::BadPoint)));
    assert!(matches!(pubkey_parse(&input, 0), Err(ErrorKind::BadPoint)));
    assert!(matches!(pubkey_parse(&input, 66), Err(ErrorKind::BadPoint)));
}

#[test]
fn pubkey_serialize_compresses_by_parity() {
    let mut key = PublicKey::new();
    for (i, byte) in key.as_mut_ptr().iter_mut().enumerate() {
        *byte = i as u8;
    }
    let mut output = [0xeeu8; 65];
    pubkey_serialize(&key, &mut output, 33);
    assert_eq!(output[0], 2);
    for i in 1..33 {
        assert_eq!(output[i], i as u8);
    }
    assert_eq!(output[33..], [0xee; 32]);
    key.as_mut_ptr()[64] = 0x81;
    pubkey_serialize(&key, &mut output, 33);
    assert_eq!(output[0], 3);
}

#[test]
fn pubkey_serialize_copies_the_uncompressed_form() {
    let mut key = PublicKey::new();
    for (i, byte) in key.as_mut_ptr().iter_mut().enumerate() {
        *byte = (200 - i) as u8;
    }
    let mut output = [0u8; 65];
    pubkey_serialize(&key, &mut output, 65);
    assert_eq!(&output, key.as_ptr());
    let mut other = [0u8; 65];
    pubkey_serialize(&key, &mut other, 7);
    assert_eq!(&other, key.as_ptr());
}

#[test]
fn strlen_stops_at_the_first_zero() {
    assert_eq!(strlen(b"abc\0def\0"), 3);
    assert_eq!(strlen(b"\0"), 0);
    assert_eq!(strlen(b"\0abc"), 0);
    assert_eq!(strlen(b"illegal argument\0"), 16);
}

#[test]
fn strlen_without_a_zero_is_the_whole_length() {
    assert_eq!(strlen(b""), 0);
    assert_eq!(strlen(b"abc"), 3);
}

#[test]
fn signature_parse_takes_components_below_the_order() {
    let mut input = [0u8; 64];
    input[31] = 1;
    input[63] = 2;
    let parsed = secp_registers::point::signature_parse(&input).ok().unwrap();
    assert_eq!(parsed.as_ptr(), &input);
    let zero = [0u8; 64];
    assert!(secp_registers::point::signature_parse(&zero).is_ok());
}

#[test]
fn signature_parse_reports_a_bad_signature() {
    let order: [u8; 32] = [
        0xff, 0xff, 0xff, 0xff, 0xff, 0xff, 0xff, 0xff, 0xff, 0xff, 0xff, 0xff, 0xff, 0xff, 0xff,
        0xfe, 0xba, 0xae, 0xdc, 0xe6, 0xaf, 0x48, 0xa0, 0x3b, 0xbf, 0xd2, 0x5e, 0x8c, 0xd0, 0x36,
        0x41, 0x41,
    ];
    let mut input = [0u8; 64];
    input[..32].copy_from_slice(&order);
    assert!(matches!(
        secp_registers::point::signature_parse(&input),
        Err(ErrorKind::BadSignature)
    ));
    let mut input = [0u8; 64];
    input[32..].copy_from_slice(&order);
    assert!(matches!(
        secp_registers::point::signature_parse(&input),
        Err(ErrorKind::BadSignature)
    ));
    input[63] = 0x40;
    assert!(secp_registers::point::signature_parse(&input).is_ok());
}
